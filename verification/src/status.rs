//! Status codes of the boundary operations and the verdict of a release.

use vstd::prelude::*;

verus! {

/// The closed set of outcomes a boundary operation can report.
#[derive(Debug, Clone, Copy, PartialEq, Eq, Structural)]
pub enum Status {
    /// The operation completed and its side effects are committed.
    Success,
    /// `establish_relations` was called a second time; nothing changed.
    AlreadyInitialized,
    /// Constructing the shared state failed.
    InitFailed,
    /// An operation other than initialization ran before `establish_relations`.
    NotInitialized,
    /// The payload reference was absent.
    NullPointer,
    /// The payload bytes are not valid UTF-8.
    InvalidEncoding,
    /// The identifier was the reserved zero value.
    InvalidId,
    /// An internal fault was contained during decoding.
    InternalFault,
    /// A queue is at `MAX_QUEUE_DEPTH`; the caller should retry later.
    QueueFull,
}

impl Status {
    /// The numeric code under which this status crosses the native boundary.
    ///
    /// `NotInitialized` shares the code of `InitFailed`: the native
    /// convention reports both as a failed initialization.
    pub fn code(&self) -> (c: i32)
        ensures
            c == self.code_spec(),
    {
        match self {
            Status::Success => 0,
            Status::AlreadyInitialized => -1,
            Status::InitFailed => -2,
            Status::NotInitialized => -2,
            Status::NullPointer => -3,
            Status::InvalidEncoding => -4,
            Status::InvalidId => -5,
            Status::InternalFault => -6,
            Status::QueueFull => -7,
        }
    }

    /// The numeric code of each status.
    pub open spec fn code_spec(self) -> i32 {
        match self {
            Status::Success => 0i32,
            Status::AlreadyInitialized => -1i32,
            Status::InitFailed => -2i32,
            Status::NotInitialized => -2i32,
            Status::NullPointer => -3i32,
            Status::InvalidEncoding => -4i32,
            Status::InvalidId => -5i32,
            Status::InternalFault => -6i32,
            Status::QueueFull => -7i32,
        }
    }
}

/// What a release of a handle did.
#[derive(Debug, Clone, Copy, PartialEq, Eq, Structural)]
pub enum ReleaseVerdict {
    /// The handle was a live loan; the buffer is to be freed exactly once.
    Released,
    /// The handle was not on loan: a double release or a foreign handle.
    /// Nothing was freed; the event is reported as a protocol violation.
    Violation,
    /// The null handle; releasing it is a no-op.
    NullHandle,
    /// Release ran before initialization; nothing was freed.
    NotInitialized,
}

} // verus!
