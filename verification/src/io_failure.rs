//! I/O failures as plain data.

use vstd::prelude::*;

verus! {

/// The kinds of I/O failures that make a difference here.
#[derive(Clone, Copy, Debug, PartialEq, Eq, Structural)]
pub enum FailureKind {
    NotFound,
    InvalidData,
    InvalidInput,
    AlreadyExists,
    ConnectionRefused,
    Other,
}

/// An I/O failure.
#[derive(Debug, PartialEq, Eq)]
pub struct IoFailure {
    pub kind: FailureKind,
    pub message: String,
}

/// The content of an I/O failure.
#[verifier::ext_equal]
pub struct FailureView {
    pub kind: FailureKind,
    pub message: Seq<char>,
}

impl View for IoFailure {
    type V = FailureView;

    open spec fn view(&self) -> FailureView {
        FailureView { kind: self.kind, message: self.message@ }
    }
}

/// A failure with its message.
pub fn failure(kind: FailureKind, message: &str) -> (r: IoFailure)
    ensures
        r@ == (FailureView { kind, message: message@ }),
{
    IoFailure { kind, message: message.to_string() }
}

} // verus!
