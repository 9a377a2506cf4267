//! What the operating system says of one invocation of its close primitive.
use vstd::prelude::*;

verus! {

/// An error of the operating system, named by its raw code: `errno` where the
/// platform has one, the thread's last-error code elsewhere.
#[derive(Clone, Copy, Debug, PartialEq, Eq, Structural)]
pub struct OsError {
    pub code: i32,
}

/// The two things a close primitive leaves behind: the status it returned,
/// and the thread's last OS error as read immediately after the call, before
/// any other request to the operating system could overwrite it.
///
/// `last_error` means something only where `status` reports a failure.
#[derive(Clone, Copy, Debug, PartialEq, Eq, Structural)]
pub struct OsReport {
    pub status: i32,
    pub last_error: OsError,
}

} // verus!
