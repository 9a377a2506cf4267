//! Closing a file handle without losing the error that the operating system
//! reports for the close.
//!
//! The crate holds the decisions of such a close and none of its system
//! calls. A caller takes the raw identifier out of its file object, invokes
//! the platform's close primitive on it, reads the thread's last OS error
//! right after, and hands both to [`Closable::close`] as an [`OsReport`]. The
//! answer is `Ok(())`, or a [`CloseError`] that carries the OS error and what
//! the failed close left of the handle.
pub mod closable;
pub mod error;
pub mod handle;
pub mod laws;
pub mod os;
pub mod posix;
pub mod windows;

pub use closable::Closable;
pub use error::{CloseError, Remnant};
pub use handle::{Descriptor, Handle};
pub use os::{OsError, OsReport};
