//! Owning and borrowing wrappers over raw resource identifiers.
//!
//! A `Borrowed*` value lends a resource for a lifetime and never closes it.
//! An `Owned*` value is the one token that answers for closing a resource.
//! A `HandleOr*` value is what a system call returned before anyone looked
//! whether it is the call's failure value.
//!
//! Nothing here talks to the operating system. Where a value reaches the end
//! of its life, `teardown` says which identifier, if any, the host has to
//! close; the host makes the call and discards its result.

use vstd::prelude::*;
use vstd::std_specs::convert::TryFromSpec;
use vstd::std_specs::convert::TryFromSpecImpl;
use std::marker::PhantomData;
use crate::raw::RawFd;
use crate::raw::RawHandle;
use crate::raw::RawSocket;
use crate::raw::INVALID_FD;
use crate::raw::INVALID_HANDLE_VALUE;
use crate::raw::INVALID_SOCKET;
use crate::raw::NULL_HANDLE;
use crate::raw::is_fd_sentinel;
use crate::raw::is_invalid_handle;
use crate::raw::is_null_handle;
use crate::raw::is_socket_sentinel;

verus! {

/// A borrowed file descriptor: never `-1`, never closed by its holder, and
/// tied to the lifetime of whatever owns the descriptor.
#[derive(Clone, Copy, Debug)]
pub struct BorrowedFd<'fd> {
    fd: RawFd,
    _phantom: PhantomData<&'fd OwnedFd>,
}

/// An owned file descriptor: never `-1`, and the only token for closing it.
#[derive(Debug)]
pub struct OwnedFd {
    fd: RawFd,
}

/// A borrowed handle: never null, never closed by its holder. It may hold
/// the all-ones value, which some calls hand out as a real handle.
#[derive(Clone, Copy, Debug)]
pub struct BorrowedHandle<'handle> {
    handle: RawHandle,
    _phantom: PhantomData<&'handle OwnedHandle>,
}

/// An owned handle. It may hold the all-ones value and it may hold null:
/// which of the two means failure depends on the call that produced it, and
/// that question was settled before the value became an `OwnedHandle`.
#[derive(Debug)]
pub struct OwnedHandle {
    handle: RawHandle,
}

/// A borrowed socket: never the reserved socket value.
#[derive(Clone, Copy, Debug)]
pub struct BorrowedSocket<'socket> {
    socket: RawSocket,
    _phantom: PhantomData<&'socket OwnedSocket>,
}

/// An owned socket: never the reserved socket value.
#[derive(Debug)]
pub struct OwnedSocket {
    socket: RawSocket,
}

/// The result of a call that reports failure by the all-ones handle. Every
/// other value, null included, is a handle that the holder now owns.
#[derive(Debug)]
pub struct HandleOrInvalid(RawHandle);

/// The result of a call that reports failure by the null handle. Every other
/// value, all-ones included, is a handle that the holder now owns.
#[derive(Debug)]
pub struct HandleOrNull(RawHandle);

impl<'fd> BorrowedFd<'fd> {
    /// The descriptor that is lent.
    pub closed spec fn view(&self) -> RawFd {
        self.fd
    }

    #[verifier::type_invariant]
    spec fn live(&self) -> bool {
        self.fd != INVALID_FD
    }

    /// The value that `borrow_raw_fd` builds.
    pub closed spec fn spec_borrow_raw_fd(fd: RawFd) -> Self {
        BorrowedFd { fd, _phantom: PhantomData }
    }

    /// Lends the descriptor `fd`. The caller vouches that it stays open for
    /// as long as the result is in use.
    #[verifier::when_used_as_spec(spec_borrow_raw_fd)]
    pub fn borrow_raw_fd(fd: RawFd) -> (borrowed: Self)
        requires
            fd != INVALID_FD,
        ensures
            borrowed@ == fd,
            borrowed == Self::spec_borrow_raw_fd(fd),
    {
        BorrowedFd { fd, _phantom: PhantomData }
    }

    /// The raw descriptor.
    #[verifier::when_used_as_spec(view)]
    pub fn as_raw_fd(&self) -> (fd: RawFd)
        ensures
            fd == self@,
            fd != INVALID_FD,
    {
        proof {
            use_type_invariant(self);
        }
        self.fd
    }

    /// Two borrows of one descriptor are the same value.
    pub proof fn lemma_determined_by_view(self, other: Self)
        requires
            self@ == other@,
        ensures
            self == other,
    {
    }

    /// What `borrow_raw_fd` builds holds the descriptor it was given.
    pub proof fn lemma_spec_borrow_raw_fd(fd: RawFd)
        ensures
            Self::spec_borrow_raw_fd(fd)@ == fd,
    {
    }

    /// What `option_from_raw` returns.
    pub open spec fn spec_option_from_raw(raw: RawFd) -> Option<Self> {
        if raw == INVALID_FD {
            None
        } else {
            Some(Self::spec_borrow_raw_fd(raw))
        }
    }

    /// What `option_into_raw` returns.
    pub open spec fn spec_option_into_raw(borrowed: Option<Self>) -> RawFd {
        match borrowed {
            None => INVALID_FD,
            Some(borrowed) => borrowed@,
        }
    }

    /// Reads a raw value in which `-1` stands for "no descriptor". The
    /// caller vouches for any other value as `borrow_raw_fd` asks.
    #[verifier::when_used_as_spec(spec_option_from_raw)]
    pub fn option_from_raw(raw: RawFd) -> (borrowed: Option<Self>)
        ensures
            borrowed == Self::spec_option_from_raw(raw),
            borrowed.is_none() <==> raw == INVALID_FD,
            borrowed matches Some(some) ==> some@ == raw,
    {
        if is_fd_sentinel(raw) {
            None
        } else {
            Some(Self::borrow_raw_fd(raw))
        }
    }

    /// Writes "no descriptor" as `-1` and a descriptor as itself.
    #[verifier::when_used_as_spec(spec_option_into_raw)]
    pub fn option_into_raw(borrowed: Option<Self>) -> (raw: RawFd)
        ensures
            raw == Self::spec_option_into_raw(borrowed),
            raw == INVALID_FD <==> borrowed.is_none(),
    {
        match borrowed {
            None => INVALID_FD,
            Some(borrowed) => borrowed.as_raw_fd(),
        }
    }

    /// The reserved value is put to use: a raw descriptor and an optional
    /// borrow say the same thing, and nothing is lost either way.
    pub proof fn lemma_option_encoding_exact(raw: RawFd, borrowed: Option<Self>)
        requires
            borrowed matches Some(some) ==> some@ != INVALID_FD,
        ensures
            Self::option_into_raw(Self::option_from_raw(raw)) == raw,
            Self::option_from_raw(Self::option_into_raw(borrowed)) == borrowed,
    {
    }
}

impl OwnedFd {
    /// The descriptor that is owned.
    pub closed spec fn view(&self) -> RawFd {
        self.fd
    }

    #[verifier::type_invariant]
    spec fn live(&self) -> bool {
        self.fd != INVALID_FD
    }

    /// The value that `own_raw_fd` builds.
    pub closed spec fn spec_own_raw_fd(fd: RawFd) -> Self {
        OwnedFd { fd }
    }

    /// Takes ownership of the descriptor `fd`. The caller vouches that it is
    /// open and that nothing else will close it.
    #[verifier::when_used_as_spec(spec_own_raw_fd)]
    pub fn own_raw_fd(fd: RawFd) -> (owned: Self)
        requires
            fd != INVALID_FD,
        ensures
            owned@ == fd,
            owned == Self::spec_own_raw_fd(fd),
    {
        OwnedFd { fd }
    }

    /// The raw descriptor, which stays owned.
    pub fn as_raw_fd(&self) -> (fd: RawFd)
        ensures
            fd == self@,
            fd != INVALID_FD,
    {
        proof {
            use_type_invariant(self);
        }
        self.fd
    }

    /// Gives the descriptor up without closing it. Closing it is from now on
    /// the caller's business.
    #[verifier::when_used_as_spec(spec_into_raw_fd)]
    pub fn into_raw_fd(self) -> (fd: RawFd)
        ensures
            fd == self@,
            fd != INVALID_FD,
    {
        proof {
            use_type_invariant(&self);
        }
        self.fd
    }

    /// The value that `into_raw_fd` returns.
    pub open spec fn spec_into_raw_fd(self) -> RawFd {
        self@
    }

    /// Ends the life of the token: the descriptor that the host must close,
    /// once, ignoring what the close reports.
    pub fn teardown(self) -> (close: Option<RawFd>)
        ensures
            close == Some(self@),
            self@ != INVALID_FD,
    {
        proof {
            use_type_invariant(&self);
        }
        Some(self.fd)
    }

    /// Two owners of one descriptor are the same value.
    pub proof fn lemma_determined_by_view(self, other: Self)
        requires
            self@ == other@,
        ensures
            self == other,
    {
    }

    /// Taking ownership of a descriptor and giving it up again yields the
    /// descriptor unchanged.
    pub proof fn lemma_raw_round_trip(fd: RawFd)
        requires
            fd != INVALID_FD,
        ensures
            Self::own_raw_fd(fd).into_raw_fd() == fd,
            Self::own_raw_fd(fd)@ == fd,
    {
    }

    /// What `option_from_raw` returns.
    pub open spec fn spec_option_from_raw(raw: RawFd) -> Option<Self> {
        if raw == INVALID_FD {
            None
        } else {
            Some(Self::spec_own_raw_fd(raw))
        }
    }

    /// What `option_into_raw` returns.
    pub open spec fn spec_option_into_raw(owned: Option<Self>) -> RawFd {
        match owned {
            None => INVALID_FD,
            Some(owned) => owned@,
        }
    }

    /// Reads what a call returned that reports failure by `-1`. The caller
    /// vouches for any other value as `own_raw_fd` asks.
    #[verifier::when_used_as_spec(spec_option_from_raw)]
    pub fn option_from_raw(raw: RawFd) -> (owned: Option<Self>)
        ensures
            owned == Self::spec_option_from_raw(raw),
            owned.is_none() <==> raw == INVALID_FD,
            owned matches Some(some) ==> some@ == raw,
    {
        if is_fd_sentinel(raw) {
            None
        } else {
            Some(Self::own_raw_fd(raw))
        }
    }

    /// Writes "no descriptor" as `-1` and a descriptor as itself, without
    /// closing it.
    #[verifier::when_used_as_spec(spec_option_into_raw)]
    pub fn option_into_raw(owned: Option<Self>) -> (raw: RawFd)
        ensures
            raw == Self::spec_option_into_raw(owned),
            raw == INVALID_FD <==> owned.is_none(),
    {
        match owned {
            None => INVALID_FD,
            Some(owned) => owned.into_raw_fd(),
        }
    }

    /// The reserved value is put to use: a raw descriptor and an optional
    /// owner say the same thing, and nothing is lost either way.
    pub proof fn lemma_option_encoding_exact(raw: RawFd, owned: Option<Self>)
        requires
            owned matches Some(some) ==> some@ != INVALID_FD,
        ensures
            Self::option_into_raw(Self::option_from_raw(raw)) == raw,
            Self::option_from_raw(Self::option_into_raw(owned)) == owned,
    {
    }
}

impl<'handle> BorrowedHandle<'handle> {
    /// The handle that is lent.
    pub closed spec fn view(&self) -> RawHandle {
        self.handle
    }

    #[verifier::type_invariant]
    spec fn live(&self) -> bool {
        self.handle != NULL_HANDLE
    }

    /// The value that `borrow_raw_handle` builds.
    pub closed spec fn spec_borrow_raw_handle(handle: RawHandle) -> Self {
        BorrowedHandle { handle, _phantom: PhantomData }
    }

    /// Lends the handle `handle`. The caller vouches that it stays open for
    /// as long as the result is in use.
    #[verifier::when_used_as_spec(spec_borrow_raw_handle)]
    pub fn borrow_raw_handle(handle: RawHandle) -> (borrowed: Self)
        requires
            handle != NULL_HANDLE,
        ensures
            borrowed@ == handle,
            borrowed == Self::spec_borrow_raw_handle(handle),
    {
        BorrowedHandle { handle, _phantom: PhantomData }
    }

    /// The raw handle.
    #[verifier::when_used_as_spec(view)]
    pub fn as_raw_handle(&self) -> (handle: RawHandle)
        ensures
            handle == self@,
            handle != NULL_HANDLE,
    {
        proof {
            use_type_invariant(self);
        }
        self.handle
    }

    /// Two borrows of one handle are the same value.
    pub proof fn lemma_determined_by_view(self, other: Self)
        requires
            self@ == other@,
        ensures
            self == other,
    {
    }

    /// What `borrow_raw_handle` builds holds the handle it was given.
    pub proof fn lemma_spec_borrow_raw_handle(handle: RawHandle)
        ensures
            Self::spec_borrow_raw_handle(handle)@ == handle,
    {
    }
}

impl OwnedHandle {
    /// The handle that is owned.
    pub closed spec fn view(&self) -> RawHandle {
        self.handle
    }

    /// The value that `from_raw_handle` builds.
    pub closed spec fn spec_from_raw_handle(handle: RawHandle) -> Self {
        OwnedHandle { handle }
    }

    /// Takes ownership of the handle `handle`, whatever its value. The
    /// caller vouches that it is open and that nothing else will close it.
    #[verifier::when_used_as_spec(spec_from_raw_handle)]
    pub fn from_raw_handle(handle: RawHandle) -> (owned: Self)
        ensures
            owned@ == handle,
            owned == Self::spec_from_raw_handle(handle),
    {
        OwnedHandle { handle }
    }

    /// The raw handle, which stays owned.
    pub fn as_raw_handle(&self) -> (handle: RawHandle)
        ensures
            handle == self@,
    {
        self.handle
    }

    /// Gives the handle up without closing it. Closing it is from now on the
    /// caller's business.
    #[verifier::when_used_as_spec(spec_into_raw_handle)]
    pub fn into_raw_handle(self) -> (handle: RawHandle)
        ensures
            handle == self@,
    {
        self.handle
    }

    /// The value that `into_raw_handle` returns.
    pub open spec fn spec_into_raw_handle(self) -> RawHandle {
        self@
    }

    /// Ends the life of the token: the handle that the host must close,
    /// once, ignoring what the close reports.
    pub fn teardown(self) -> (close: Option<RawHandle>)
        ensures
            close == Some(self@),
    {
        Some(self.handle)
    }

    /// Two owners of one handle are the same value.
    pub proof fn lemma_determined_by_view(self, other: Self)
        requires
            self@ == other@,
        ensures
            self == other,
    {
    }

    /// Taking ownership of a handle and giving it up again yields the handle
    /// unchanged.
    pub proof fn lemma_raw_round_trip(handle: RawHandle)
        ensures
            Self::from_raw_handle(handle).into_raw_handle() == handle,
            Self::from_raw_handle(handle)@ == handle,
    {
    }
}

impl<'socket> BorrowedSocket<'socket> {
    /// The socket that is lent.
    pub closed spec fn view(&self) -> RawSocket {
        self.socket
    }

    #[verifier::type_invariant]
    spec fn live(&self) -> bool {
        self.socket != INVALID_SOCKET
    }

    /// The value that `borrow_raw_socket` builds.
    pub closed spec fn spec_borrow_raw_socket(socket: RawSocket) -> Self {
        BorrowedSocket { socket, _phantom: PhantomData }
    }

    /// Lends the socket `socket`. The caller vouches that it stays open for
    /// as long as the result is in use.
    #[verifier::when_used_as_spec(spec_borrow_raw_socket)]
    pub fn borrow_raw_socket(socket: RawSocket) -> (borrowed: Self)
        requires
            socket != INVALID_SOCKET,
        ensures
            borrowed@ == socket,
            borrowed == Self::spec_borrow_raw_socket(socket),
    {
        BorrowedSocket { socket, _phantom: PhantomData }
    }

    /// The raw socket.
    #[verifier::when_used_as_spec(view)]
    pub fn as_raw_socket(&self) -> (socket: RawSocket)
        ensures
            socket == self@,
            socket != INVALID_SOCKET,
    {
        proof {
            use_type_invariant(self);
        }
        self.socket
    }

    /// Two borrows of one socket are the same value.
    pub proof fn lemma_determined_by_view(self, other: Self)
        requires
            self@ == other@,
        ensures
            self == other,
    {
    }

    /// What `borrow_raw_socket` builds holds the socket it was given.
    pub proof fn lemma_spec_borrow_raw_socket(socket: RawSocket)
        ensures
            Self::spec_borrow_raw_socket(socket)@ == socket,
    {
    }

    /// What `option_from_raw` returns.
    pub open spec fn spec_option_from_raw(raw: RawSocket) -> Option<Self> {
        if raw == INVALID_SOCKET {
            None
        } else {
            Some(Self::spec_borrow_raw_socket(raw))
        }
    }

    /// What `option_into_raw` returns.
    pub open spec fn spec_option_into_raw(borrowed: Option<Self>) -> RawSocket {
        match borrowed {
            None => INVALID_SOCKET,
            Some(borrowed) => borrowed@,
        }
    }

    /// Reads a raw value in which the reserved value stands for "no
    /// socket". The caller vouches for any other value as
    /// `borrow_raw_socket` asks.
    #[verifier::when_used_as_spec(spec_option_from_raw)]
    pub fn option_from_raw(raw: RawSocket) -> (borrowed: Option<Self>)
        ensures
            borrowed == Self::spec_option_from_raw(raw),
            borrowed.is_none() <==> raw == INVALID_SOCKET,
            borrowed matches Some(some) ==> some@ == raw,
    {
        if is_socket_sentinel(raw) {
            None
        } else {
            Some(Self::borrow_raw_socket(raw))
        }
    }

    /// Writes "no socket" as the reserved value and a socket as itself.
    #[verifier::when_used_as_spec(spec_option_into_raw)]
    pub fn option_into_raw(borrowed: Option<Self>) -> (raw: RawSocket)
        ensures
            raw == Self::spec_option_into_raw(borrowed),
            raw == INVALID_SOCKET <==> borrowed.is_none(),
    {
        match borrowed {
            None => INVALID_SOCKET,
            Some(borrowed) => borrowed.as_raw_socket(),
        }
    }

    /// The reserved value is put to use: a raw socket and an optional borrow
    /// say the same thing, and nothing is lost either way.
    pub proof fn lemma_option_encoding_exact(raw: RawSocket, borrowed: Option<Self>)
        requires
            borrowed matches Some(some) ==> some@ != INVALID_SOCKET,
        ensures
            Self::option_into_raw(Self::option_from_raw(raw)) == raw,
            Self::option_from_raw(Self::option_into_raw(borrowed)) == borrowed,
    {
    }
}

impl OwnedSocket {
    /// The socket that is owned.
    pub closed spec fn view(&self) -> RawSocket {
        self.socket
    }

    #[verifier::type_invariant]
    spec fn live(&self) -> bool {
        self.socket != INVALID_SOCKET
    }

    /// The value that `from_raw_socket` builds.
    pub closed spec fn spec_from_raw_socket(socket: RawSocket) -> Self {
        OwnedSocket { socket }
    }

    /// Takes ownership of the socket `socket`. The caller vouches that it is
    /// open and that nothing else will close it.
    #[verifier::when_used_as_spec(spec_from_raw_socket)]
    pub fn from_raw_socket(socket: RawSocket) -> (owned: Self)
        requires
            socket != INVALID_SOCKET,
        ensures
            owned@ == socket,
            owned == Self::spec_from_raw_socket(socket),
    {
        OwnedSocket { socket }
    }

    /// The raw socket, which stays owned.
    pub fn as_raw_socket(&self) -> (socket: RawSocket)
        ensures
            socket == self@,
            socket != INVALID_SOCKET,
    {
        proof {
            use_type_invariant(self);
        }
        self.socket
    }

    /// Gives the socket up without closing it. Closing it is from now on the
    /// caller's business.
    #[verifier::when_used_as_spec(spec_into_raw_socket)]
    pub fn into_raw_socket(self) -> (socket: RawSocket)
        ensures
            socket == self@,
            socket != INVALID_SOCKET,
    {
        proof {
            use_type_invariant(&self);
        }
        self.socket
    }

    /// The value that `into_raw_socket` returns.
    pub open spec fn spec_into_raw_socket(self) -> RawSocket {
        self@
    }

    /// Ends the life of the token: the socket that the host must close,
    /// once, ignoring what the close reports.
    pub fn teardown(self) -> (close: Option<RawSocket>)
        ensures
            close == Some(self@),
            self@ != INVALID_SOCKET,
    {
        proof {
            use_type_invariant(&self);
        }
        Some(self.socket)
    }

    /// Two owners of one socket are the same value.
    pub proof fn lemma_determined_by_view(self, other: Self)
        requires
            self@ == other@,
        ensures
            self == other,
    {
    }

    /// Taking ownership of a socket and giving it up again yields the socket
    /// unchanged.
    pub proof fn lemma_raw_round_trip(socket: RawSocket)
        requires
            socket != INVALID_SOCKET,
        ensures
            Self::from_raw_socket(socket).into_raw_socket() == socket,
            Self::from_raw_socket(socket)@ == socket,
    {
    }

    /// What `option_from_raw` returns.
    pub open spec fn spec_option_from_raw(raw: RawSocket) -> Option<Self> {
        if raw == INVALID_SOCKET {
            None
        } else {
            Some(Self::spec_from_raw_socket(raw))
        }
    }

    /// What `option_into_raw` returns.
    pub open spec fn spec_option_into_raw(owned: Option<Self>) -> RawSocket {
        match owned {
            None => INVALID_SOCKET,
            Some(owned) => owned@,
        }
    }

    /// Reads what a call returned that reports failure by the reserved
    /// socket value. The caller vouches for any other value as
    /// `from_raw_socket` asks.
    #[verifier::when_used_as_spec(spec_option_from_raw)]
    pub fn option_from_raw(raw: RawSocket) -> (owned: Option<Self>)
        ensures
            owned == Self::spec_option_from_raw(raw),
            owned.is_none() <==> raw == INVALID_SOCKET,
            owned matches Some(some) ==> some@ == raw,
    {
        if is_socket_sentinel(raw) {
            None
        } else {
            Some(Self::from_raw_socket(raw))
        }
    }

    /// Writes "no socket" as the reserved value and a socket as itself,
    /// without closing it.
    #[verifier::when_used_as_spec(spec_option_into_raw)]
    pub fn option_into_raw(owned: Option<Self>) -> (raw: RawSocket)
        ensures
            raw == Self::spec_option_into_raw(owned),
            raw == INVALID_SOCKET <==> owned.is_none(),
    {
        match owned {
            None => INVALID_SOCKET,
            Some(owned) => owned.into_raw_socket(),
        }
    }

    /// The reserved value is put to use: a raw socket and an optional owner
    /// say the same thing, and nothing is lost either way.
    pub proof fn lemma_option_encoding_exact(raw: RawSocket, owned: Option<Self>)
        requires
            owned matches Some(some) ==> some@ != INVALID_SOCKET,
        ensures
            Self::option_into_raw(Self::option_from_raw(raw)) == raw,
            Self::option_from_raw(Self::option_into_raw(owned)) == owned,
    {
    }
}

impl HandleOrInvalid {
    /// The value that the call returned.
    pub closed spec fn view(&self) -> RawHandle {
        self.0
    }

    /// Whether the call reported failure.
    pub open spec fn is_sentinel(&self) -> bool {
        self@ == INVALID_HANDLE_VALUE
    }

    /// The value that `from_raw_handle` builds.
    pub closed spec fn spec_from_raw_handle(handle: RawHandle) -> Self {
        HandleOrInvalid(handle)
    }

    /// Wraps what a call returned that reports failure by the all-ones
    /// handle. The caller vouches that any other value is open and owned by
    /// nothing else.
    #[verifier::when_used_as_spec(spec_from_raw_handle)]
    pub fn from_raw_handle(handle: RawHandle) -> (wrapped: Self)
        ensures
            wrapped@ == handle,
            wrapped == Self::spec_from_raw_handle(handle),
    {
        HandleOrInvalid(handle)
    }

    /// Ends the life of a value that nobody converted: the handle that the
    /// host must close, or nothing where the call had failed.
    pub fn teardown(self) -> (close: Option<RawHandle>)
        ensures
            self.is_sentinel() ==> close.is_none(),
            !self.is_sentinel() ==> close == Some(self@),
    {
        if is_invalid_handle(self.0) {
            None
        } else {
            Some(self.0)
        }
    }

    /// What `from_raw_handle` builds holds the value it was given.
    pub proof fn lemma_spec_from_raw_handle(handle: RawHandle)
        ensures
            Self::spec_from_raw_handle(handle)@ == handle,
    {
    }
}

impl HandleOrNull {
    /// The value that the call returned.
    pub closed spec fn view(&self) -> RawHandle {
        self.0
    }

    /// Whether the call reported failure.
    pub open spec fn is_sentinel(&self) -> bool {
        self@ == NULL_HANDLE
    }

    /// The value that `from_raw_handle` builds.
    pub closed spec fn spec_from_raw_handle(handle: RawHandle) -> Self {
        HandleOrNull(handle)
    }

    /// Wraps what a call returned that reports failure by the null handle.
    /// The caller vouches that any other value is open and owned by nothing
    /// else.
    #[verifier::when_used_as_spec(spec_from_raw_handle)]
    pub fn from_raw_handle(handle: RawHandle) -> (wrapped: Self)
        ensures
            wrapped@ == handle,
            wrapped == Self::spec_from_raw_handle(handle),
    {
        HandleOrNull(handle)
    }

    /// Ends the life of a value that nobody converted: the handle that the
    /// host must close, or nothing where the call had failed.
    pub fn teardown(self) -> (close: Option<RawHandle>)
        ensures
            self.is_sentinel() ==> close.is_none(),
            !self.is_sentinel() ==> close == Some(self@),
    {
        if is_null_handle(self.0) {
            None
        } else {
            Some(self.0)
        }
    }

    /// What `from_raw_handle` builds holds the value it was given.
    pub proof fn lemma_spec_from_raw_handle(handle: RawHandle)
        ensures
            Self::spec_from_raw_handle(handle)@ == handle,
    {
    }
}

impl TryFrom<HandleOrInvalid> for OwnedHandle {
    type Error = ();

    /// Looks once whether the call had failed. On failure there is nothing
    /// to own and nothing to close; otherwise the result owns exactly the
    /// handle that the call returned.
    fn try_from(handle_or_invalid: HandleOrInvalid) -> (converted: Result<Self, ()>)
        ensures
            converted.is_err() <==> handle_or_invalid.is_sentinel(),
            converted.is_ok() ==> converted.unwrap()@ == handle_or_invalid@,
    {
        let raw = handle_or_invalid.0;
        if is_invalid_handle(raw) {
            Err(())
        } else {
            Ok(OwnedHandle { handle: raw })
        }
    }
}

impl TryFromSpecImpl<HandleOrInvalid> for OwnedHandle {
    open spec fn obeys_try_from_spec() -> bool {
        true
    }

    closed spec fn try_from_spec(v: HandleOrInvalid) -> Result<Self, ()> {
        if v.0 == INVALID_HANDLE_VALUE {
            Err(())
        } else {
            Ok(OwnedHandle { handle: v.0 })
        }
    }
}

impl TryFrom<HandleOrNull> for OwnedHandle {
    type Error = ();

    /// Looks once whether the call had failed. On failure there is nothing
    /// to own and nothing to close; otherwise the result owns exactly the
    /// handle that the call returned.
    fn try_from(handle_or_null: HandleOrNull) -> (converted: Result<Self, ()>)
        ensures
            converted.is_err() <==> handle_or_null.is_sentinel(),
            converted.is_ok() ==> converted.unwrap()@ == handle_or_null@,
    {
        let raw = handle_or_null.0;
        if is_null_handle(raw) {
            Err(())
        } else {
            Ok(OwnedHandle { handle: raw })
        }
    }
}

impl TryFromSpecImpl<HandleOrNull> for OwnedHandle {
    open spec fn obeys_try_from_spec() -> bool {
        true
    }

    closed spec fn try_from_spec(v: HandleOrNull) -> Result<Self, ()> {
        if v.0 == NULL_HANDLE {
            Err(())
        } else {
            Ok(OwnedHandle { handle: v.0 })
        }
    }
}

/// A value that a call returned converts to an owned handle exactly when it
/// is not the call's failure value, and the owned handle then holds that
/// value unchanged. This holds of both failure conventions.
pub proof fn lemma_sentinel_checked_once(raw: RawHandle)
    ensures
        raw == INVALID_HANDLE_VALUE ==> <OwnedHandle as TryFromSpec<
            HandleOrInvalid,
        >>::try_from_spec(HandleOrInvalid::from_raw_handle(raw)).is_err(),
        raw != INVALID_HANDLE_VALUE ==> <OwnedHandle as TryFromSpec<
            HandleOrInvalid,
        >>::try_from_spec(HandleOrInvalid::from_raw_handle(raw)) == Ok::<OwnedHandle, ()>(
            OwnedHandle::from_raw_handle(raw),
        ),
        raw == NULL_HANDLE ==> <OwnedHandle as TryFromSpec<HandleOrNull>>::try_from_spec(
            HandleOrNull::from_raw_handle(raw),
        ).is_err(),
        raw != NULL_HANDLE ==> <OwnedHandle as TryFromSpec<HandleOrNull>>::try_from_spec(
            HandleOrNull::from_raw_handle(raw),
        ) == Ok::<OwnedHandle, ()>(OwnedHandle::from_raw_handle(raw)),
        OwnedHandle::from_raw_handle(raw)@ == raw,
{
}

} // verus!
