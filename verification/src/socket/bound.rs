//! A socket that has been bound to an address.

use std::marker::PhantomData;
use vstd::prelude::*;
use crate::addr::Domain;
use crate::socket::SockType;

verus! {

/// A socket that has been bound to an address but is not yet listening.
///
/// For stream sockets, `listen` leads on to a `Listener`.
pub struct BoundSocket<D: Domain, T: SockType> {
    fd: i32,
    _marker: PhantomData<(D, T)>,
}

impl<D: Domain, T: SockType> BoundSocket<D, T> {
    /// The descriptor that the handle owns.
    pub closed spec fn descriptor(&self) -> i32 {
        self.fd
    }

    /// Creates the handle that owns `fd`.
    pub(crate) fn from_fd(fd: i32) -> (s: Self)
        ensures
            s.descriptor() == fd,
    {
        Self { fd, _marker: PhantomData }
    }

    /// Takes ownership of a descriptor that is bound.
    pub fn from_descriptor(fd: i32) -> (s: Self)
        ensures
            s.descriptor() == fd,
    {
        Self::from_fd(fd)
    }

    /// Returns the raw file descriptor. Does not transfer ownership.
    #[inline]
    pub fn as_raw_fd(&self) -> (fd: i32)
        ensures
            fd == self.descriptor(),
    {
        self.fd
    }

    /// Gives up the handle and returns the descriptor, which the caller now
    /// owns.
    pub fn into_raw_fd(self) -> (fd: i32)
        ensures
            fd == self.descriptor(),
    {
        self.fd
    }

    /// Extracts the descriptor, consuming self.
    pub(crate) fn into_fd(self) -> (fd: i32)
        ensures
            fd == self.descriptor(),
    {
        self.fd
    }
}

} // verus!
