use vstd::prelude::*;

verus! {

/// Why an operation on the store was refused. Every error is final for the
/// operation that returned it, and the store is then left as it was.
#[derive(Clone, Copy, Debug, PartialEq, Eq, Structural)]
pub enum GateError {
    /// A write was attempted by an identity that does not own the key.
    NotAuthorized,
    /// The signer owns the key, but the signature was not accepted.
    InvalidSignature,
    /// A read was attempted on a key that has no entry.
    KeyNotFound,
}

impl GateError {
    /// The text that goes with each error.
    pub open spec fn message_text(self) -> Seq<char> {
        match self {
            GateError::NotAuthorized => "you are not allowed to change this value"@,
            GateError::InvalidSignature => "the signature could not be verified"@,
            GateError::KeyNotFound => "Key does not exist"@,
        }
    }

    /// A human-readable description of the error.
    pub fn message(&self) -> (text: &'static str)
        ensures
            text@ == self.message_text(),
    {
        match self {
            GateError::NotAuthorized => "you are not allowed to change this value",
            GateError::InvalidSignature => "the signature could not be verified",
            GateError::KeyNotFound => "Key does not exist",
        }
    }
}

} // verus!
