//! Runtime thread-confinement guard.
//!
//! The panel resource is single-threaded by nature, yet the surrounding editor
//! interface demands an object that can be moved across threads. The guard
//! resolves that: it records a token identifying the thread that created it,
//! and every access must present the same token. The surrounding application
//! derives the token from the current thread's identity and terminates on a
//! mismatch, which turns a silent data race into an immediate, diagnosable
//! failure; in here, the contracts make a mismatched access impossible for
//! verified callers.

use vstd::prelude::*;

verus! {

/// A cell that must only be accessed from the thread it was created on,
/// identified by a caller-supplied token.
#[derive(Debug)]
pub struct SendCell<T> {
    data: T,
    owner: u64,
}

impl<T> SendCell<T> {
    /// The token of the thread that created this cell.
    pub closed spec fn spec_owner(&self) -> u64 {
        self.owner
    }

    /// The wrapped value.
    pub closed spec fn spec_data(&self) -> T {
        self.data
    }

    /// Wrap a value, recording the identity token of the calling thread.
    pub fn new(value: T, thread_token: u64) -> (c: SendCell<T>)
        ensures
            c.spec_owner() == thread_token,
            c.spec_data() == value,
    {
        SendCell { data: value, owner: thread_token }
    }

    /// Whether the thread presenting this token may access the cell. A caller
    /// on another thread must treat `false` as fatal, never as recoverable.
    pub fn check(&self, thread_token: u64) -> (ok: bool)
        ensures
            ok == (thread_token == self.spec_owner()),
    {
        thread_token == self.owner
    }

    /// Read access, only for the creating thread.
    pub fn access(&self, thread_token: u64) -> (r: &T)
        requires
            thread_token == self.spec_owner(),
        ensures
            *r == self.spec_data(),
    {
        &self.data
    }

    /// Write access, only for the creating thread. The owner never changes.
    pub fn access_mut(&mut self, thread_token: u64) -> (r: &mut T)
        requires
            thread_token == old(self).spec_owner(),
        ensures
            *r == old(self).spec_data(),
            final(self).spec_data() == *final(r),
            final(self).spec_owner() == old(self).spec_owner(),
    {
        &mut self.data
    }

    /// Take the value out, only on the creating thread.
    pub fn into_inner(self, thread_token: u64) -> (r: T)
        requires
            thread_token == self.spec_owner(),
        ensures
            r == self.spec_data(),
    {
        self.data
    }
}

} // verus!
