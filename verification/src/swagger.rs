//! Example values for the served API documentation.

use vstd::prelude::*;

verus! {

/// A type that can produce an example of itself for the API documentation,
/// optionally built around a caller-supplied message.
pub trait SwaggerExample {
    type Example;

    fn example(value: Option<&str>) -> Self::Example;
}

} // verus!
