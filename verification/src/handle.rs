//! Single-owner tokens for the two kinds of raw file identifier.
//!
//! A token stands for the exclusive ownership of an open OS resource. It is
//! neither `Clone` nor `Copy`, so a token that a function took by value is
//! gone for the caller: that is how a close is kept from happening twice.
//! Making a token from a raw value and taking the raw value out again touch
//! nothing in the operating system.
use vstd::prelude::*;

verus! {

/// An open POSIX file descriptor.
pub struct Descriptor {
    fd: i32,
}

impl Descriptor {
    /// The raw descriptor that this token owns.
    pub closed spec fn raw(self) -> i32 {
        self.fd
    }

    /// Takes ownership of the open descriptor `fd`.
    pub fn from_raw(fd: i32) -> (descriptor: Descriptor)
        ensures
            descriptor.raw() == fd,
    {
        Descriptor { fd }
    }

    /// The raw descriptor, which stays owned by the token.
    pub fn as_raw(&self) -> (fd: i32)
        ensures
            fd == self.raw(),
    {
        self.fd
    }

    /// Gives the raw descriptor up to the caller, who owns it from now on.
    pub fn into_raw(self) -> (fd: i32)
        ensures
            fd == self.raw(),
    {
        self.fd
    }
}

/// An open Windows file handle, held as the address-sized integer that the
/// raw handle is.
pub struct Handle {
    handle: usize,
}

impl Handle {
    /// The raw handle that this token owns.
    pub closed spec fn raw(self) -> usize {
        self.handle
    }

    /// A token is nothing but the raw handle it owns: two tokens of one raw
    /// handle are the same token.
    pub proof fn lemma_raw_is_all(self, other: Handle)
        requires
            self.raw() == other.raw(),
        ensures
            self == other,
    {
    }

    /// Takes ownership of the open handle `handle`.
    pub fn from_raw(handle: usize) -> (token: Handle)
        ensures
            token.raw() == handle,
    {
        Handle { handle }
    }

    /// The raw handle, which stays owned by the token.
    pub fn as_raw(&self) -> (handle: usize)
        ensures
            handle == self.raw(),
    {
        self.handle
    }

    /// Gives the raw handle up to the caller, who owns it from now on.
    pub fn into_raw(self) -> (handle: usize)
        ensures
            handle == self.raw(),
    {
        self.handle
    }
}

} // verus!
