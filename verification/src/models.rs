//! The translation task value object.

use vstd::prelude::*;
use vstd::string::StringExecFns;

verus! {

/// Source text of the documentation example task.
pub const DEFAULT_TASK_TEXT: &'static str = "This is my rifle. There are many like it, but this one is mine.\n                My rifle is my best friend. It is my life. I must master it as I must master my life.\n                My rifle, without me, is useless. Without my rifle, I am useless. I must fire my rifle true. \n                I must shoot straighter than my enemy who is trying to kill me. I must shoot him before he shoots me. I will...\n                My rifle and I know that what counts in war is not the rounds we fire, the noise of our burst, nor the smoke we make. \n                We know that it is the hits that count. We will hit...";

/// What to translate and between which languages. `source_language` and
/// `target_language` hold ISO 639-1 codes; well-formedness of the codes is
/// not checked here but by the adapter, which rejects an unresolvable code.
#[derive(Debug, Clone, PartialEq)]
pub struct TranslateTask {
    source_language: String,
    target_language: String,
    text: String,
}

impl TranslateTask {
    pub closed spec fn spec_source_language(&self) -> Seq<char> {
        self.source_language@
    }

    pub closed spec fn spec_target_language(&self) -> Seq<char> {
        self.target_language@
    }

    pub closed spec fn spec_text(&self) -> Seq<char> {
        self.text@
    }

    pub fn new(source_language: String, target_language: String, text: String) -> (r: Self)
        ensures
            r.spec_source_language() == source_language@,
            r.spec_target_language() == target_language@,
            r.spec_text() == text@,
    {
        TranslateTask { source_language, target_language, text }
    }

    pub fn source_language(&self) -> (r: &String)
        ensures
            r@ == self.spec_source_language(),
    {
        &self.source_language
    }

    pub fn target_language(&self) -> (r: &String)
        ensures
            r@ == self.spec_target_language(),
    {
        &self.target_language
    }

    pub fn text(&self) -> (r: &String)
        ensures
            r@ == self.spec_text(),
    {
        &self.text
    }

    pub fn set_source_language(&mut self, val: String)
        ensures
            final(self).spec_source_language() == val@,
            final(self).spec_target_language() == old(self).spec_target_language(),
            final(self).spec_text() == old(self).spec_text(),
    {
        self.source_language = val;
    }

    pub fn set_target_language(&mut self, val: String)
        ensures
            final(self).spec_source_language() == old(self).spec_source_language(),
            final(self).spec_target_language() == val@,
            final(self).spec_text() == old(self).spec_text(),
    {
        self.target_language = val;
    }

    pub fn set_text(&mut self, val: String)
        ensures
            final(self).spec_source_language() == old(self).spec_source_language(),
            final(self).spec_target_language() == old(self).spec_target_language(),
            final(self).spec_text() == val@,
    {
        self.text = val;
    }

    /// The task rendered as readable text, for documentation and logs.
    pub open spec fn display_spec(&self) -> Seq<char> {
        "TranslateTask:\n  \n            Source Language: \""@ + self.spec_source_language()
            + "\"\n  \n            Target Language: \""@ + self.spec_target_language()
            + "\"\n\n            Text: \""@ + self.spec_text() + "\""@
    }

    /// Renders the task as readable text.
    pub fn display_string(&self) -> (r: String)
        ensures
            r@ == self.display_spec(),
    {
        let mut out = String::from_str("TranslateTask:\n  \n            Source Language: \"");
        out.append(self.source_language.as_str());
        out.append("\"\n  \n            Target Language: \"");
        out.append(self.target_language.as_str());
        out.append("\"\n\n            Text: \"");
        out.append(self.text.as_str());
        out.append("\"");
        out
    }
}

impl Default for TranslateTask {
    /// The documentation example: English to Russian, with a fixed text.
    fn default() -> (r: Self)
        ensures
            r.spec_source_language() == "en"@,
            r.spec_target_language() == "ru"@,
            r.spec_text() == DEFAULT_TASK_TEXT@,
    {
        TranslateTask {
            source_language: String::from_str("en"),
            target_language: String::from_str("ru"),
            text: String::from_str(DEFAULT_TASK_TEXT),
        }
    }
}

} // verus!
