use vstd::prelude::*;

verus! {

/// The kinds of failure a request is answered with.
#[derive(Clone, Copy, Debug, PartialEq, Eq, Structural)]
pub enum FailureKind {
    InternalFailure,
    MalformedRequest,
}

/// The failure a request is answered with: its kind and a message.
#[derive(Debug)]
pub struct RequestFailure {
    pub kind: FailureKind,
    pub message: String,
}

} // verus!
