//! Request and response bodies of the translation route.

use vstd::prelude::*;

use crate::models::TranslateTask;

verus! {

/// The decoded body of a translation request: exactly the task fields.
#[derive(Debug, Clone, PartialEq)]
pub struct TextTransaltorRequest {
    translate_task: TranslateTask,
}

impl TextTransaltorRequest {
    pub closed spec fn spec_translate_task(&self) -> TranslateTask {
        self.translate_task
    }

    pub fn new(translate_task: TranslateTask) -> (r: Self)
        ensures
            r.spec_translate_task() == translate_task,
    {
        TextTransaltorRequest { translate_task }
    }

    pub fn translate_task(&self) -> (r: &TranslateTask)
        ensures
            *r == self.spec_translate_task(),
    {
        &self.translate_task
    }
}

/// The body of a successful translation response.
#[derive(Debug, Clone, PartialEq)]
pub struct TextTransaltorResponse {
    text: String,
}

impl TextTransaltorResponse {
    pub closed spec fn spec_text(&self) -> Seq<char> {
        self.text@
    }

    pub fn new(text: String) -> (r: Self)
        ensures
            r.spec_text() == text@,
    {
        Self { text }
    }

    pub fn text(&self) -> (r: &String)
        ensures
            r@ == self.spec_text(),
    {
        &self.text
    }
}

} // verus!
