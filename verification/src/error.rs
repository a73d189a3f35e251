//! The error value that request handling reports to its caller.

use vstd::prelude::*;

verus! {

/// An error carrying a human-readable message.
#[derive(Debug)]
pub struct CustomError(pub String);

impl CustomError {
    /// Boxes an error whose message is `e`.
    pub fn new(e: &str) -> (err: Box<Self>)
        ensures
            err.0@ == e@,
    {
        Box::new(CustomError::from(e))
    }

    /// The message, as it is shown to a caller.
    pub fn message(&self) -> (text: String)
        ensures
            text@ == self.0@,
    {
        self.0.clone()
    }
}

impl<'a> From<&'a str> for CustomError {
    fn from(value: &'a str) -> (err: Self)
        ensures
            err.0@ == value@,
    {
        CustomError(value.to_owned())
    }
}

/// A `String` cannot be built in ghost code, so the conversion is
/// described by the postcondition of `from` (the message's characters) and
/// not by `from_spec`.
impl<'a> vstd::std_specs::convert::FromSpecImpl<&'a str> for CustomError {
    open spec fn obeys_from_spec() -> bool {
        false
    }

    open spec fn from_spec(value: &'a str) -> Self {
        CustomError(choose|text: String| text@ == value@)
    }
}

} // verus!
