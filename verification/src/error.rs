//! The error of a failed close.
use vstd::prelude::*;

use crate::handle::Handle;
use crate::os::OsError;

verus! {

/// What a failed close leaves of the handle. The two variants are the two
/// conventions that platforms follow, and they call for opposite conduct.
pub enum Remnant {
    /// The resource was released although the close failed. The descriptor is
    /// kept for diagnostics alone: it names nothing any more, or by now some
    /// other file, and must not be closed or used again.
    Stale(i32),
    /// The resource survived the failed close. The handle is open as before
    /// and belongs to whoever holds this value: it may be closed again, used,
    /// or given up.
    Live(Handle),
}

/// Why a close failed, and what it left behind. A value of this type comes
/// into being only through a failed [`close`](crate::Closable::close), and
/// never changes afterwards.
pub struct CloseError {
    io_error: OsError,
    remnant: Remnant,
}

impl CloseError {
    /// The OS error that the close primitive left behind.
    pub closed spec fn io_error(self) -> OsError {
        self.io_error
    }

    /// What the failed close left of the handle.
    pub closed spec fn remnant(self) -> Remnant {
        self.remnant
    }

    /// The descriptor that a failed POSIX close released, if this is the
    /// error of one.
    pub open spec fn stale_fd(self) -> Option<i32> {
        match self.remnant() {
            Remnant::Stale(fd) => Some(fd),
            Remnant::Live(_) => None,
        }
    }

    /// The raw value of the handle that survived a failed Windows close, if
    /// this is the error of one.
    pub open spec fn live_handle(self) -> Option<usize> {
        match self.remnant() {
            Remnant::Stale(_) => None,
            Remnant::Live(handle) => Some(handle.raw()),
        }
    }

    pub(crate) fn new(io_error: OsError, remnant: Remnant) -> (error: CloseError)
        ensures
            error.io_error() == io_error,
            error.remnant() == remnant,
    {
        CloseError { io_error, remnant }
    }

    /// The file descriptor that was closed, where the platform releases a
    /// descriptor whatever its close reports; `None` where the handle
    /// survived.
    ///
    /// For diagnostics only, and rarely of use. The descriptor is no longer
    /// valid: consult the platform's documentation before doing anything
    /// with it.
    pub fn raw_fd(&self) -> (fd: Option<i32>)
        ensures
            fd == self.stale_fd(),
    {
        match &self.remnant {
            Remnant::Stale(fd) => Some(*fd),
            Remnant::Live(_) => None,
        }
    }

    /// The raw value of the handle that is still open, where the platform
    /// keeps a handle open when its close fails; `None` where the resource
    /// was released. The handle stays owned by the error: take it with
    /// [`into_remnant`](CloseError::into_remnant) to close it again.
    pub fn raw_handle(&self) -> (handle: Option<usize>)
        ensures
            handle == self.live_handle(),
    {
        match &self.remnant {
            Remnant::Stale(_) => None,
            Remnant::Live(handle) => Some(handle.as_raw()),
        }
    }

    /// The OS error that the close primitive left behind.
    pub fn as_io_error(&self) -> (io_error: &OsError)
        ensures
            *io_error == self.io_error(),
    {
        &self.io_error
    }

    /// Gives up the error for what the failed close left of the handle. Where
    /// that is a live handle, the caller owns it again.
    pub fn into_remnant(self) -> (remnant: Remnant)
        ensures
            remnant == self.remnant(),
    {
        self.remnant
    }
}

} // verus!
