//! An advisory lock over a whole file, for handles.
//!
//! The lock is a protocol between three parties. This module decides: which
//! file-locking call is to be made, and what its outcome means. The host
//! makes the call. The operating system arbitrates between the holders. A
//! lock is held for as long as its guard lives; the guard borrows the
//! `FdLock` mutably, so one `FdLock` has at most one guard at a time.
//!
//! The lock covers the first byte of the file, which by agreement stands for
//! the whole of it.

pub mod portability;
pub mod views;

use vstd::prelude::*;
use std::ops::Deref;
use std::ops::DerefMut;
use crate::error::Error;
use crate::error::ErrorKind;
use crate::raw::RawHandle;
use crate::raw::NULL_HANDLE;
use crate::traits::AsHandle;

verus! {

/// The `LockFileEx` flag that asks for an exclusive lock.
pub const LOCKFILE_EXCLUSIVE_LOCK: u32 = 0x2;

/// The error code by which a locking call reports that another holder has
/// the range.
pub const ERROR_LOCK_VIOLATION: u32 = 33;

/// A range of bytes in a file, each number split in two halves as the
/// locking calls take it.
#[derive(Clone, Copy, Debug, PartialEq, Eq, Structural)]
pub struct ByteRange {
    /// The low half of the offset of the first byte.
    pub offset_low: u32,
    /// The high half of the offset of the first byte.
    pub offset_high: u32,
    /// The low half of the number of bytes.
    pub length_low: u32,
    /// The high half of the number of bytes.
    pub length_high: u32,
}

/// A file-locking call for the host to make.
#[derive(Clone, Copy, Debug, PartialEq, Eq, Structural)]
pub enum LockCall {
    /// `LockFile`: lock the range, or fail at once.
    LockFile { handle: RawHandle, range: ByteRange },
    /// `LockFileEx`: lock the range, waiting for it.
    LockFileEx { handle: RawHandle, flags: u32, range: ByteRange },
    /// `UnlockFile`: give the range up.
    UnlockFile { handle: RawHandle, range: ByteRange },
}

/// The range that stands for the whole file: its first byte.
pub open spec fn spec_whole_file() -> ByteRange {
    ByteRange { offset_low: 0, offset_high: 0, length_low: 1, length_high: 0 }
}

/// The range that stands for the whole file: its first byte.
pub fn whole_file() -> (range: ByteRange)
    ensures
        range == spec_whole_file(),
{
    ByteRange { offset_low: 0, offset_high: 0, length_low: 1, length_high: 0 }
}

/// What the outcome of a locking call means to the one who asked.
#[derive(Clone, Copy, Debug, PartialEq, Eq, Structural)]
pub enum Attempt {
    /// The lock is now held.
    Acquired,
    /// Somebody else holds the lock.
    Contended,
    /// The call failed for another reason.
    Failed,
}

/// What a waiting call that reported `locked` means. Such a call waits
/// rather than report contention.
pub open spec fn spec_blocking_attempt(locked: bool) -> Attempt {
    if locked {
        Attempt::Acquired
    } else {
        Attempt::Failed
    }
}

/// What a call that does not wait means that reported `locked` and, where it
/// failed, left the error code `last_error`.
pub open spec fn spec_nonblocking_attempt(locked: bool, last_error: u32) -> Attempt {
    if locked {
        Attempt::Acquired
    } else if last_error == ERROR_LOCK_VIOLATION {
        Attempt::Contended
    } else {
        Attempt::Failed
    }
}

/// The failure that an attempt stands for, if it is one.
pub open spec fn spec_attempt_error(attempt: Attempt) -> Option<ErrorKind> {
    match attempt {
        Attempt::Acquired => None,
        Attempt::Contended => Some(ErrorKind::Locked),
        Attempt::Failed => Some(ErrorKind::Other),
    }
}

/// Reads the outcome of a waiting call.
pub fn blocking_attempt(locked: bool) -> (attempt: Attempt)
    ensures
        attempt == spec_blocking_attempt(locked),
{
    if locked {
        Attempt::Acquired
    } else {
        Attempt::Failed
    }
}

/// Reads the outcome of a call that does not wait.
pub fn nonblocking_attempt(locked: bool, last_error: u32) -> (attempt: Attempt)
    ensures
        attempt == spec_nonblocking_attempt(locked, last_error),
{
    if locked {
        Attempt::Acquired
    } else if last_error == ERROR_LOCK_VIOLATION {
        Attempt::Contended
    } else {
        Attempt::Failed
    }
}

/// The proof that a bare handle is locked.
#[derive(Debug)]
pub struct LockGuard {
    handle: RawHandle,
}

impl LockGuard {
    /// The handle that is locked.
    pub closed spec fn view(&self) -> RawHandle {
        self.handle
    }

    /// The handle that is locked.
    pub fn handle(&self) -> (handle: RawHandle)
        ensures
            handle == self@,
    {
        self.handle
    }

    /// The call that gives the lock up.
    pub fn unlock_request(&self) -> (call: LockCall)
        ensures
            call == (LockCall::UnlockFile { handle: self@, range: spec_whole_file() }),
    {
        LockCall::UnlockFile { handle: self.handle, range: whole_file() }
    }

    /// Ends the guard once the call of `unlock_request` has reported
    /// success. A lock that could not be given up is no state to go on
    /// from: the host stops there and never gets here.
    pub fn unlock(self, unlocked: bool)
        requires
            unlocked,
    {
    }
}

/// The call that locks a bare handle, failing at once if it is held.
pub fn lock_request(handle: RawHandle) -> (call: LockCall)
    ensures
        call == (LockCall::LockFile { handle, range: spec_whole_file() }),
{
    LockCall::LockFile { handle, range: whole_file() }
}

/// Takes note of what the call of `lock_request` reported for `handle`, and
/// of the error code it left where it failed. Where it locked, the guard
/// says so. Otherwise the failure is `Locked` where the error code says that
/// another holder has the range, and `Other` where it says anything else.
pub fn lock(handle: RawHandle, locked: bool, last_error: u32) -> (held: Result<LockGuard, Error>)
    ensures
        held.is_ok() <==> locked,
        held matches Ok(guard) ==> guard@ == handle,
        held matches Err(error) ==> Some(error@) == spec_attempt_error(
            spec_nonblocking_attempt(locked, last_error),
        ),
        held matches Err(error) ==> (error@ == ErrorKind::Locked <==> last_error
            == ERROR_LOCK_VIOLATION),
{
    match nonblocking_attempt(locked, last_error) {
        Attempt::Acquired => Ok(LockGuard { handle }),
        Attempt::Contended => Err(Error::from(ErrorKind::Locked)),
        Attempt::Failed => Err(Error::from(ErrorKind::Other)),
    }
}

/// Takes note of what an unlocking call reported for `handle`, made outside
/// any guard. A call that did not unlock is a failure of the category
/// `Other`; `Locked` is kept for an attempt that found another holder.
pub fn unlock(handle: RawHandle, unlocked: bool) -> (done: Result<(), Error>)
    ensures
        done.is_ok() <==> unlocked,
        done matches Err(error) ==> error@ == ErrorKind::Other,
{
    if unlocked {
        Ok(())
    } else {
        Err(Error::from(ErrorKind::Other))
    }
}

/// A file lock: a resource that may be locked as a whole.
#[derive(Debug)]
pub struct FdLock<T: AsHandle> {
    t: T,
}

/// The proof that a lock is held. Through it the locked resource is
/// reached; ending it with `unlock` gives the lock up.
///
/// The field is public so that contracts can say where the resource ends up
/// once the guard is gone. A guard put together by hand says nothing about
/// any lock.
#[derive(Debug)]
pub struct FdLockGuard<'fdlock, T: AsHandle> {
    /// The lock that this guard holds.
    pub lock: &'fdlock mut FdLock<T>,
}

impl<T: AsHandle> FdLock<T> {
    /// The resource inside the lock.
    pub closed spec fn inner(&self) -> T {
        self.t
    }

    /// Wraps a resource, unlocked.
    pub fn new(t: T) -> (lock: Self)
        ensures
            lock.inner() == t,
    {
        FdLock { t }
    }

    /// The resource inside the lock, for a look at it while no guard is
    /// out.
    pub fn get_ref(&self) -> (t: &T)
        ensures
            *t == self.inner(),
    {
        &self.t
    }

    /// The call that acquires the lock, waiting for as long as it takes.
    pub fn lock_request(&self) -> (call: LockCall)
        requires
            self.inner().borrowed_handle() != NULL_HANDLE,
        ensures
            call == (LockCall::LockFileEx {
                handle: self.inner().borrowed_handle(),
                flags: LOCKFILE_EXCLUSIVE_LOCK,
                range: spec_whole_file(),
            }),
    {
        LockCall::LockFileEx {
            handle: self.t.as_handle().as_raw_handle(),
            flags: LOCKFILE_EXCLUSIVE_LOCK,
            range: whole_file(),
        }
    }

    /// The call that acquires the lock if it is free and fails at once if
    /// it is not.
    pub fn try_lock_request(&self) -> (call: LockCall)
        requires
            self.inner().borrowed_handle() != NULL_HANDLE,
        ensures
            call == (LockCall::LockFile {
                handle: self.inner().borrowed_handle(),
                range: spec_whole_file(),
            }),
    {
        LockCall::LockFile { handle: self.t.as_handle().as_raw_handle(), range: whole_file() }
    }

    /// Takes note of what the call of `lock_request` reported. Where it
    /// locked, the guard says so; where it did not, the failure is of the
    /// category `Other`, and the lock is as it was.
    pub fn lock(&mut self, locked: bool) -> (held: Result<FdLockGuard<'_, T>, Error>)
        ensures
            held.is_ok() <==> locked,
            held matches Ok(guard) ==> guard.held() == old(self).inner() && *final(guard.lock)
                == *final(self),
            held matches Err(error) ==> error@ == ErrorKind::Other && *final(self) == *old(self),
    {
        match blocking_attempt(locked) {
            Attempt::Acquired => Ok(FdLockGuard { lock: self }),
            _ => Err(Error::from(ErrorKind::Other)),
        }
    }

    /// Takes note of what the call of `try_lock_request` reported. Where it
    /// locked, the guard says so. Otherwise the failure is `Locked` where
    /// the error code says that another holder has the range, and `Other`
    /// where it says anything else; the lock is then as it was.
    pub fn try_lock(&mut self, locked: bool, last_error: u32) -> (held: Result<
        FdLockGuard<'_, T>,
        Error,
    >)
        ensures
            held.is_ok() <==> locked,
            held matches Ok(guard) ==> guard.held() == old(self).inner() && *final(guard.lock)
                == *final(self),
            held.is_err() ==> *final(self) == *old(self),
            held matches Err(error) ==> Some(error@) == spec_attempt_error(
                spec_nonblocking_attempt(locked, last_error),
            ),
            held matches Err(error) ==> (error@ == ErrorKind::Locked <==> last_error
                == ERROR_LOCK_VIOLATION),
    {
        match nonblocking_attempt(locked, last_error) {
            Attempt::Acquired => Ok(FdLockGuard { lock: self }),
            Attempt::Contended => Err(Error::from(ErrorKind::Locked)),
            Attempt::Failed => Err(Error::from(ErrorKind::Other)),
        }
    }
}

impl<'fdlock, T: AsHandle> FdLockGuard<'fdlock, T> {
    /// The resource that is locked, as it is now.
    pub closed spec fn held(&self) -> T {
        self.lock.t
    }

    /// The call that gives the lock up.
    pub fn unlock_request(&self) -> (call: LockCall)
        requires
            self.held().borrowed_handle() != NULL_HANDLE,
        ensures
            call == (LockCall::UnlockFile {
                handle: self.held().borrowed_handle(),
                range: spec_whole_file(),
            }),
    {
        LockCall::UnlockFile { handle: self.lock.t.as_handle().as_raw_handle(), range: whole_file() }
    }

    /// Ends the guard once the call of `unlock_request` has reported
    /// success. The lock is then free again and holds the resource as the
    /// guard left it. A lock that could not be given up is no state to go on
    /// from: the host stops there and never gets here.
    pub fn unlock(self, unlocked: bool)
        requires
            unlocked,
        ensures
            final(self.lock).inner() == self.held(),
    {
    }
}

impl<T: AsHandle> Deref for FdLockGuard<'_, T> {
    type Target = T;

    fn deref(&self) -> (t: &T)
        ensures
            *t == self.held(),
    {
        &self.lock.t
    }
}

impl<T: AsHandle> DerefMut for FdLockGuard<'_, T> {
    fn deref_mut(&mut self) -> (t: &mut T)
        ensures
            *t == old(self).held(),
            final(self).held() == *final(t),
            *final(final(self).lock) == *final(old(self).lock),
    {
        &mut self.lock.t
    }
}

/// A failed attempt is reported as `Locked` exactly when the call said that
/// another holder has the range, and as `Other` in every other case; an
/// attempt that did not fail is reported as no failure at all.
pub proof fn lemma_contention_told_apart(locked: bool, last_error: u32)
    ensures
        !locked && last_error == ERROR_LOCK_VIOLATION ==> spec_attempt_error(
            spec_nonblocking_attempt(locked, last_error),
        ) == Some(ErrorKind::Locked),
        !locked && last_error != ERROR_LOCK_VIOLATION ==> spec_attempt_error(
            spec_nonblocking_attempt(locked, last_error),
        ) == Some(ErrorKind::Other),
        locked ==> spec_attempt_error(spec_nonblocking_attempt(locked, last_error)) is None,
        spec_attempt_error(spec_blocking_attempt(locked)) != Some(ErrorKind::Locked),
{
}

} // verus!
