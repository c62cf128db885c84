//! The numbers that the native engine answers with, and what they mean.

use vstd::prelude::*;

verus! {

/// The flag that makes a tag's key match by case.
pub const TAG_MATCH_CASE: i32 = 1;

/// The handle that stands for no object.
pub const NULL_HANDLE: usize = 0;

/// What a status of the engine means: a negative one is an error, which is
/// handed on as it is.
pub open spec fn status_outcome(status: i32) -> Result<(), i32> {
    if status >= 0 {
        Ok(())
    } else {
        Err(status)
    }
}

/// Turns a status of the engine into a result.
pub fn check_status(status: i32) -> (outcome: Result<(), i32>)
    ensures
        outcome == status_outcome(status),
{
    if status >= 0 {
        Ok(())
    } else {
        Err(status)
    }
}

/// The flags of a tag operation.
pub open spec fn match_flags(case_sensitive: bool) -> i32 {
    if case_sensitive {
        TAG_MATCH_CASE
    } else {
        0
    }
}

/// The flags to hand to the engine with a tag's key.
pub fn tag_match_flags(case_sensitive: bool) -> (flags: i32)
    ensures
        flags == match_flags(case_sensitive),
{
    if case_sensitive {
        TAG_MATCH_CASE
    } else {
        0
    }
}

/// The engine has no buffer at the moment.
pub const BUFFER_NO: i32 = 0;

/// The engine handed out a buffer.
pub const BUFFER_YES: i32 = 1;

/// The end of the playlist is reached: no buffer will come.
pub const BUFFER_END: i32 = 2;

/// The answer of the engine to a request for a buffer.
#[derive(Clone, Copy, Debug, PartialEq, Eq, Structural)]
pub enum BufferStatus {
    /// No buffer yet. A request that blocks is never answered so.
    No,
    /// A buffer.
    Yes,
    /// The end of the playlist.
    End,
}

impl BufferStatus {
    /// The answer that the engine gives by the number `code`, if it is one.
    pub open spec fn of_code(code: i32) -> Option<BufferStatus> {
        if code == BUFFER_NO {
            Some(BufferStatus::No)
        } else if code == BUFFER_YES {
            Some(BufferStatus::Yes)
        } else if code == BUFFER_END {
            Some(BufferStatus::End)
        } else {
            None
        }
    }

    /// Reads the engine's answer to a request for a buffer; `None` for a
    /// number that is none of its answers.
    pub fn from_groove(code: i32) -> (status: Option<BufferStatus>)
        ensures
            status == Self::of_code(code),
    {
        if code == BUFFER_NO {
            Some(BufferStatus::No)
        } else if code == BUFFER_YES {
            Some(BufferStatus::Yes)
        } else if code == BUFFER_END {
            Some(BufferStatus::End)
        } else {
            None
        }
    }
}

} // verus!
