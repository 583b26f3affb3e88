//! Raw resource identifiers and the values reserved to mean "no resource".
//!
//! An operating system names an open resource by a small bit pattern: a
//! signed integer for a descriptor, a pointer-sized value for a handle, and
//! a second pointer-sized value for a socket where sockets live in a
//! namespace of their own. A few of these patterns never name a resource;
//! system calls hand them back to report failure. Every other module asks
//! this one which values those are.

use vstd::prelude::*;

verus! {

/// A raw file descriptor.
pub type RawFd = i32;

/// A raw handle, held as the address-sized value that the system hands out.
pub type RawHandle = usize;

/// A raw socket, held as the address-sized value that the system hands out.
pub type RawSocket = usize;

/// The descriptor value that system calls return in place of a descriptor.
pub const INVALID_FD: RawFd = -1;

/// The handle value that calls such as thread creation return on failure.
pub const NULL_HANDLE: RawHandle = 0;

/// The handle value that calls such as file creation return on failure:
/// all bits set.
pub const INVALID_HANDLE_VALUE: RawHandle = usize::MAX;

/// The socket value that socket calls return on failure: all bits set.
pub const INVALID_SOCKET: RawSocket = usize::MAX;

/// The descriptor values that name no resource.
pub open spec fn fd_sentinels() -> Set<RawFd> {
    set![INVALID_FD]
}

/// The handle values that may stand for "no resource". Which of the two a
/// given call uses depends on the call.
pub open spec fn handle_sentinels() -> Set<RawHandle> {
    set![NULL_HANDLE, INVALID_HANDLE_VALUE]
}

/// The socket values that name no resource.
pub open spec fn socket_sentinels() -> Set<RawSocket> {
    set![INVALID_SOCKET]
}

/// Whether `raw` is the reserved descriptor value.
pub fn is_fd_sentinel(raw: RawFd) -> (reserved: bool)
    ensures
        reserved == fd_sentinels().contains(raw),
        reserved == (raw == INVALID_FD),
{
    raw == INVALID_FD
}

/// Whether `raw` is the null handle.
pub fn is_null_handle(raw: RawHandle) -> (null: bool)
    ensures
        null == (raw == NULL_HANDLE),
        null ==> handle_sentinels().contains(raw),
{
    raw == NULL_HANDLE
}

/// Whether `raw` is the all-ones handle.
pub fn is_invalid_handle(raw: RawHandle) -> (invalid: bool)
    ensures
        invalid == (raw == INVALID_HANDLE_VALUE),
        invalid ==> handle_sentinels().contains(raw),
{
    raw == INVALID_HANDLE_VALUE
}

/// Whether `raw` is one of the two reserved handle values.
pub fn is_handle_sentinel(raw: RawHandle) -> (reserved: bool)
    ensures
        reserved == handle_sentinels().contains(raw),
        reserved == (raw == NULL_HANDLE || raw == INVALID_HANDLE_VALUE),
{
    raw == NULL_HANDLE || raw == INVALID_HANDLE_VALUE
}

/// Whether `raw` is the reserved socket value.
pub fn is_socket_sentinel(raw: RawSocket) -> (reserved: bool)
    ensures
        reserved == socket_sentinels().contains(raw),
        reserved == (raw == INVALID_SOCKET),
{
    raw == INVALID_SOCKET
}

/// The two reserved handle values differ, whatever the width of an address.
pub proof fn lemma_handle_sentinels_distinct()
    ensures
        NULL_HANDLE != INVALID_HANDLE_VALUE,
        handle_sentinels().len() == 2,
{
    assert(handle_sentinels() =~= set![NULL_HANDLE].insert(INVALID_HANDLE_VALUE));
}

} // verus!
