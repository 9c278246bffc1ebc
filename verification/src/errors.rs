use vstd::prelude::*;

verus! {

/// The error type of the library: a human-readable message.
#[derive(Debug)]
pub struct RiichiError {
    pub message: String,
}

impl RiichiError {
    /// Builds an error that carries `msg` as its message.
    pub fn new(msg: String) -> (r: Self)
        ensures
            r.message@ == msg@,
    {
        RiichiError { message: msg }
    }

    /// The text that the error displays: its message.
    pub fn to_display_string(&self) -> (r: String)
        ensures
            r@ == self.message@,
    {
        self.message.clone()
    }
}

} // verus!
