//! A connection attempt in flight.

use std::marker::PhantomData;
use vstd::prelude::*;
use crate::addr::Domain;
use crate::socket::stream::ConnectedStream;
use crate::socket::Outcome;

verus! {

/// A non-blocking connection attempt in flight. Once the descriptor has
/// become writable, its status is read once: the operating system clears it
/// when it is read.
pub struct PendingConnect<D: Domain> {
    fd: i32,
    _marker: PhantomData<D>,
}

/// What reading the status of a connection attempt yields: the error number
/// of the query where the call returned -1; else nothing where the status is
/// 0 (the connection stands), or the status, the error number with which
/// the attempt failed.
pub open spec fn status_result(done: Outcome, status: i32) -> Result<Option<i32>, i32> {
    if done.ret == -1 {
        Err(done.errno)
    } else if status == 0 {
        Ok(None)
    } else {
        Ok(Some(status))
    }
}

impl<D: Domain> PendingConnect<D> {
    /// The descriptor that the handle owns.
    pub closed spec fn descriptor(&self) -> i32 {
        self.fd
    }

    /// Creates the handle that owns `fd`.
    pub(crate) fn from_fd(fd: i32) -> (s: Self)
        ensures
            s.descriptor() == fd,
    {
        Self { fd, _marker: PhantomData }
    }

    /// Takes ownership of a descriptor on which a connection attempt is in flight.
    pub fn from_descriptor(fd: i32) -> (s: Self)
        ensures
            s.descriptor() == fd,
    {
        Self::from_fd(fd)
    }

    /// Returns the raw file descriptor. Does not transfer ownership.
    #[inline]
    pub fn as_raw_fd(&self) -> (fd: i32)
        ensures
            fd == self.descriptor(),
    {
        self.fd
    }

    /// Gives up the handle and returns the descriptor, which the caller now
    /// owns.
    pub fn into_raw_fd(self) -> (fd: i32)
        ensures
            fd == self.descriptor(),
    {
        self.fd
    }

    /// Reads the status of the attempt from what the query gave back:
    /// `done` is the outcome of the query, `status` the number it stored.
    /// Call this once, after the descriptor has become writable.
    pub fn take_error(&self, done: Outcome, status: i32) -> (r: Result<Option<i32>, i32>)
        ensures
            r == status_result(done, status),
    {
        if done.ret == -1 {
            return Err(done.errno);
        }
        if status == 0 {
            Ok(None)
        } else {
            Ok(Some(status))
        }
    }

    /// Completes the connection after the status was read and was 0.
    /// Consumes self, returns the connected stream that owns the descriptor.
    pub fn finish(self) -> (s: ConnectedStream<D>)
        ensures
            s.descriptor() == self.descriptor(),
    {
        ConnectedStream::from_fd(self.fd)
    }

    /// Reads the status of the attempt and resolves the handle in one step,
    /// so that the status cannot be read a second time: the connected stream
    /// that owns the descriptor where the status is 0, else the error number
    /// of the query or of the attempt.
    pub fn probe(self, done: Outcome, status: i32) -> (r: Result<ConnectedStream<D>, i32>)
        ensures
            match status_result(done, status) {
                Ok(None) => r is Ok && r->Ok_0.descriptor() == self.descriptor(),
                Ok(Some(e)) => r == Err::<ConnectedStream<D>, i32>(e),
                Err(e) => r == Err::<ConnectedStream<D>, i32>(e),
            },
    {
        match self.take_error(done, status) {
            Ok(None) => Ok(self.finish()),
            Ok(Some(e)) => Err(e),
            Err(e) => Err(e),
        }
    }
}

} // verus!
