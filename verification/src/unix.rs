//! An advisory lock over a whole file, for descriptors.
//!
//! The lock is a protocol between three parties. This module decides: which
//! `flock` call is to be made, and what its outcome means. The host makes
//! the call. The operating system arbitrates between the holders. A lock is
//! held for as long as its guard lives; the guard borrows the `FdLock`
//! mutably, so one `FdLock` has at most one guard at a time.
//!
//! The lock is advisory: it binds only those who ask for it.

pub mod portability;
pub mod views;

use vstd::prelude::*;
use std::ops::Deref;
use std::ops::DerefMut;
use crate::error::Error;
use crate::error::ErrorKind;
use crate::raw::RawFd;
use crate::traits::AsFd;

verus! {

/// The `flock` operation that asks for an exclusive lock.
pub open spec fn spec_lock_ex() -> i32 {
    2
}

/// The `flock` operation flag that forbids waiting.
pub open spec fn spec_lock_nb() -> i32 {
    4
}

/// The `flock` operation that gives a lock up.
pub open spec fn spec_lock_un() -> i32 {
    8
}

/// Reads `libc::LOCK_EX`, which is 2 on every target for which the crate
/// defines it.
#[verifier::external_body]
fn lock_ex() -> (bits: i32)
    ensures
        bits == spec_lock_ex(),
{
    libc::LOCK_EX
}

/// Reads `libc::LOCK_NB`, which is 4 on every target for which the crate
/// defines it.
#[verifier::external_body]
fn lock_nb() -> (bits: i32)
    ensures
        bits == spec_lock_nb(),
{
    libc::LOCK_NB
}

/// Reads `libc::LOCK_UN`, which is 8 on every target for which the crate
/// defines it.
#[verifier::external_body]
fn lock_un() -> (bits: i32)
    ensures
        bits == spec_lock_un(),
{
    libc::LOCK_UN
}

/// Reads `libc::EWOULDBLOCK`, the error code by which a call reports that it
/// would have had to wait. Its value differs from target to target, so
/// nothing is claimed of it.
#[verifier::external_body]
fn would_block_code() -> (code: i32)
{
    libc::EWOULDBLOCK
}

/// A `flock` call for the host to make: the descriptor and the operation.
#[derive(Clone, Copy, Debug, PartialEq, Eq, Structural)]
pub struct Flock {
    /// The descriptor to lock or unlock.
    pub fd: RawFd,
    /// The operation bits.
    pub operation: i32,
}

/// The call that asks for the lock on `fd` and waits for it.
pub open spec fn spec_lock_request(fd: RawFd) -> Flock {
    Flock { fd, operation: spec_lock_ex() }
}

/// The call that asks for the lock on `fd` and does not wait.
pub open spec fn spec_try_lock_request(fd: RawFd) -> Flock {
    Flock { fd, operation: spec_lock_ex() | spec_lock_nb() }
}

/// The call that gives the lock on `fd` up.
pub open spec fn spec_unlock_request(fd: RawFd) -> Flock {
    Flock { fd, operation: spec_lock_un() | spec_lock_nb() }
}

/// What the outcome of a `flock` call means to the one who asked.
#[derive(Clone, Copy, Debug, PartialEq, Eq, Structural)]
pub enum Attempt {
    /// The lock is now held.
    Acquired,
    /// Somebody else holds the lock.
    Contended,
    /// The call failed for another reason.
    Failed,
}

/// What a blocking `flock` call that returned `ret` means. Such a call waits
/// rather than report contention.
pub open spec fn spec_blocking_attempt(ret: i32) -> Attempt {
    if ret == 0 {
        Attempt::Acquired
    } else {
        Attempt::Failed
    }
}

/// What a non-blocking `flock` call means that returned `ret` and, where it
/// failed, left the error code `errno`, on a system whose code for "would
/// have had to wait" is `would_block`.
pub open spec fn spec_nonblocking_attempt(ret: i32, errno: i32, would_block: i32) -> Attempt {
    if ret == 0 {
        Attempt::Acquired
    } else if errno == would_block {
        Attempt::Contended
    } else {
        Attempt::Failed
    }
}

/// The failure that an attempt stands for, if it is one.
pub open spec fn spec_attempt_error(attempt: Attempt) -> Option<ErrorKind> {
    match attempt {
        Attempt::Acquired => None,
        Attempt::Contended => Some(ErrorKind::Locked),
        Attempt::Failed => Some(ErrorKind::Other),
    }
}

/// Reads the outcome of a blocking `flock` call.
pub fn blocking_attempt(ret: i32) -> (attempt: Attempt)
    ensures
        attempt == spec_blocking_attempt(ret),
{
    if ret == 0 {
        Attempt::Acquired
    } else {
        Attempt::Failed
    }
}

/// Reads the outcome of a non-blocking `flock` call, given the system's code
/// for "would have had to wait".
pub fn nonblocking_attempt(ret: i32, errno: i32, would_block: i32) -> (attempt: Attempt)
    ensures
        attempt == spec_nonblocking_attempt(ret, errno, would_block),
{
    if ret == 0 {
        Attempt::Acquired
    } else if errno == would_block {
        Attempt::Contended
    } else {
        Attempt::Failed
    }
}

/// A file descriptor lock: a resource that may be locked as a whole.
#[derive(Debug)]
pub struct FdLock<T: AsFd> {
    t: T,
}

/// The proof that a lock is held. Through it the locked resource is
/// reached; ending it with `unlock` gives the lock up.
///
/// The field is public so that contracts can say where the resource ends up
/// once the guard is gone. A guard put together by hand says nothing about
/// any lock.
#[derive(Debug)]
pub struct FdLockGuard<'fdlock, T: AsFd> {
    /// The lock that this guard holds.
    pub lock: &'fdlock mut FdLock<T>,
}

impl<T: AsFd> FdLock<T> {
    /// The resource inside the lock.
    pub closed spec fn inner(&self) -> T {
        self.t
    }

    /// Wraps a resource, unlocked.
    pub fn new(t: T) -> (lock: Self)
        ensures
            lock.inner() == t,
    {
        FdLock { t }
    }

    /// The call that acquires the lock, waiting for as long as it takes.
    pub fn lock_request(&self) -> (call: Flock)
        ensures
            call == spec_lock_request(self.inner().borrowed_fd()),
    {
        Flock { fd: self.t.as_fd().as_raw_fd(), operation: lock_ex() }
    }

    /// The call that acquires the lock if it is free and fails at once if
    /// it is not.
    pub fn try_lock_request(&self) -> (call: Flock)
        ensures
            call == spec_try_lock_request(self.inner().borrowed_fd()),
            call.operation == 6,
    {
        let ex = lock_ex();
        let nb = lock_nb();
        assert(2i32 | 4i32 == 6i32) by (bit_vector);
        Flock { fd: self.t.as_fd().as_raw_fd(), operation: ex | nb }
    }

    /// Takes note of what the call of `lock_request` returned. A return of
    /// zero means that the lock is held, and the guard says so; any other
    /// return is a failure of the category `Other`, and the lock is as it
    /// was.
    pub fn lock(&mut self, ret: i32) -> (held: Result<FdLockGuard<'_, T>, Error>)
        ensures
            held.is_ok() <==> ret == 0,
            held matches Ok(guard) ==> guard.held() == old(self).inner() && *final(guard.lock)
                == *final(self),
            held matches Err(error) ==> error@ == ErrorKind::Other && *final(self) == *old(self),
    {
        match blocking_attempt(ret) {
            Attempt::Acquired => Ok(FdLockGuard { lock: self }),
            _ => Err(Error::from(ErrorKind::Other)),
        }
    }

    /// Takes note of what the call of `try_lock_request` returned, on a
    /// system whose code for "would have had to wait" is `would_block`. A
    /// return of zero means that the lock is held. Otherwise the failure is
    /// `Locked` where the error code is `would_block`, and `Other` where it
    /// is anything else; the lock is then as it was.
    pub fn try_lock_given(&mut self, ret: i32, errno: i32, would_block: i32) -> (held: Result<
        FdLockGuard<'_, T>,
        Error,
    >)
        ensures
            held.is_ok() <==> ret == 0,
            held matches Ok(guard) ==> guard.held() == old(self).inner() && *final(guard.lock)
                == *final(self),
            held.is_err() ==> *final(self) == *old(self),
            held matches Err(error) ==> Some(error@) == spec_attempt_error(
                spec_nonblocking_attempt(ret, errno, would_block),
            ),
            held matches Err(error) ==> (error@ == ErrorKind::Locked <==> errno == would_block),
    {
        match nonblocking_attempt(ret, errno, would_block) {
            Attempt::Acquired => Ok(FdLockGuard { lock: self }),
            Attempt::Contended => Err(Error::from(ErrorKind::Locked)),
            Attempt::Failed => Err(Error::from(ErrorKind::Other)),
        }
    }

    /// Takes note of what the call of `try_lock_request` returned, with this
    /// system's code for "would have had to wait". A return of zero means
    /// that the lock is held. Any other return is a failure, `Locked` or
    /// `Other` as `try_lock_given` says for this system's code, and the lock
    /// is then as it was.
    pub fn try_lock(&mut self, ret: i32, errno: i32) -> (held: Result<FdLockGuard<'_, T>, Error>)
        ensures
            held.is_ok() <==> ret == 0,
            held matches Ok(guard) ==> guard.held() == old(self).inner() && *final(guard.lock)
                == *final(self),
            held.is_err() ==> *final(self) == *old(self),
            held matches Err(error) ==> exists|would_block: i32|
                Some(error@) == spec_attempt_error(
                    #[trigger] spec_nonblocking_attempt(ret, errno, would_block),
                ),
    {
        let would_block = would_block_code();
        self.try_lock_given(ret, errno, would_block)
    }
}

impl<'fdlock, T: AsFd> FdLockGuard<'fdlock, T> {
    /// The resource that is locked, as it is now.
    pub closed spec fn held(&self) -> T {
        self.lock.t
    }

    /// The call that gives the lock up.
    pub fn unlock_request(&self) -> (call: Flock)
        ensures
            call == spec_unlock_request(self.held().borrowed_fd()),
            call.operation == 12,
    {
        let un = lock_un();
        let nb = lock_nb();
        assert(8i32 | 4i32 == 12i32) by (bit_vector);
        Flock { fd: self.lock.t.as_fd().as_raw_fd(), operation: un | nb }
    }

    /// Ends the guard once the call of `unlock_request` has returned zero.
    /// The lock is then free again and holds the resource as the guard left
    /// it. A lock that could not be given up is no state to go on from: the
    /// host stops there and never gets here.
    pub fn unlock(self, ret: i32)
        requires
            ret == 0,
        ensures
            final(self.lock).inner() == self.held(),
    {
    }
}

impl<T: AsFd> Deref for FdLockGuard<'_, T> {
    type Target = T;

    fn deref(&self) -> (t: &T)
        ensures
            *t == self.held(),
    {
        &self.lock.t
    }
}

impl<T: AsFd> DerefMut for FdLockGuard<'_, T> {
    fn deref_mut(&mut self) -> (t: &mut T)
        ensures
            *t == old(self).held(),
            final(self).held() == *final(t),
            *final(final(self).lock) == *final(old(self).lock),
    {
        &mut self.lock.t
    }
}

/// A failed attempt is reported as `Locked` exactly when the call said that
/// it would have had to wait, and as `Other` in every other case; an attempt
/// that did not fail is reported as no failure at all.
pub proof fn lemma_contention_told_apart(ret: i32, errno: i32, would_block: i32)
    ensures
        ret != 0 && errno == would_block ==> spec_attempt_error(
            spec_nonblocking_attempt(ret, errno, would_block),
        ) == Some(ErrorKind::Locked),
        ret != 0 && errno != would_block ==> spec_attempt_error(
            spec_nonblocking_attempt(ret, errno, would_block),
        ) == Some(ErrorKind::Other),
        ret == 0 ==> spec_attempt_error(spec_nonblocking_attempt(ret, errno, would_block))
            is None,
        spec_attempt_error(spec_blocking_attempt(ret)) != Some(ErrorKind::Locked),
{
}

/// Giving a lock up names the descriptor that taking it named, asks for no
/// lock, and never waits; taking it asks for an exclusive lock and waits
/// exactly where the caller chose to.
pub proof fn lemma_requests_pair_up(fd: RawFd)
    ensures
        spec_unlock_request(fd).fd == spec_lock_request(fd).fd,
        spec_unlock_request(fd).fd == spec_try_lock_request(fd).fd,
        spec_lock_request(fd).operation == 2,
        spec_try_lock_request(fd).operation == 6,
        spec_unlock_request(fd).operation == 12,
        spec_unlock_request(fd).operation & spec_lock_ex() == 0,
        spec_unlock_request(fd).operation & spec_lock_un() == spec_lock_un(),
        spec_try_lock_request(fd).operation & spec_lock_nb() == spec_lock_nb(),
        spec_lock_request(fd).operation & spec_lock_nb() == 0,
{
    assert(2i32 | 4i32 == 6i32) by (bit_vector);
    assert(8i32 | 4i32 == 12i32) by (bit_vector);
    assert(12i32 & 2i32 == 0i32) by (bit_vector);
    assert(12i32 & 8i32 == 8i32) by (bit_vector);
    assert(6i32 & 4i32 == 4i32) by (bit_vector);
    assert(2i32 & 4i32 == 0i32) by (bit_vector);
}

} // verus!
