//! The error type that fallible grouping operations return.
//!
//! The only operation of the default controller that can actually fail is the
//! initial row fetch, and that failure originates in the row-store
//! collaborator; the controller merely propagates it.

use vstd::prelude::*;

verus! {

/// An error reported by a collaborator (for the default group controller,
/// the row store consulted during initialization).
#[derive(Debug)]
pub struct FlowyError {
    pub msg: String,
}

impl FlowyError {
    /// Builds an error carrying a human-readable message.
    pub fn new(msg: String) -> (r: FlowyError)
        ensures
            r.msg@ == msg@,
    {
        FlowyError { msg }
    }

    /// The error's message.
    pub fn message(&self) -> (r: &str)
        ensures
            r@ == self.msg@,
    {
        self.msg.as_str()
    }
}

/// The result type of every fallible grouping operation.
pub type FlowyResult<T> = Result<T, FlowyError>;

} // verus!
