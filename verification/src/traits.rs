//! The roles that a resource type can play towards the handle types.
//!
//! A type that can lend its resource implements an `As*` trait, one that can
//! be consumed for it an `Into*` trait, and one that can be built around it a
//! `From*` trait. Descriptors need one family of roles. Handles and sockets
//! need one each, because a socket cannot be handed to a call that expects a
//! handle, nor a handle to one that expects a socket.
//!
//! Each role names, as a spec function, the identifier that a value stands
//! for in that role, and every implementation in this crate defines it. An
//! implementation written outside verified code cannot define it and is left
//! with the default, which is one unknown value for the whole type. The
//! clause that speaks of it then tells the values of that type no further
//! apart, so nothing about such a type is to be concluded from it. Verified
//! code that is generic over a role does not see the default, and learns of
//! a value's identifier only what the method hands back or what a `requires`
//! tells it.

use vstd::prelude::*;
use crate::raw::RawFd;
use crate::raw::RawHandle;
use crate::raw::RawSocket;
use crate::raw::NULL_HANDLE;
use crate::types::BorrowedFd;
use crate::types::BorrowedHandle;
use crate::types::BorrowedSocket;
use crate::types::HandleOrInvalid;
use crate::types::OwnedFd;
use crate::types::OwnedHandle;
use crate::types::OwnedSocket;

verus! {

/// A type that can lend its file descriptor.
pub trait AsFd {
    /// The descriptor that this value lends.
    open spec fn borrowed_fd(&self) -> RawFd {
        arbitrary()
    }

    /// Lends the descriptor for as long as `self` is borrowed.
    fn as_fd(&self) -> (borrowed: BorrowedFd<'_>)
        ensures
            borrowed@ == self.borrowed_fd(),
    ;
}

/// A type that can be consumed for its file descriptor.
pub trait IntoFd: Sized {
    /// The descriptor that this value owns and gives up when consumed.
    open spec fn owned_fd(&self) -> RawFd {
        arbitrary()
    }

    /// Consumes the value and hands over its descriptor, still open.
    fn into_fd(self) -> (owned: OwnedFd)
        ensures
            owned@ == self.owned_fd(),
    ;
}

/// A type that can be built around a file descriptor.
pub trait FromFd: Sized {
    /// The descriptor that this value was built around.
    open spec fn adopted_fd(&self) -> RawFd {
        arbitrary()
    }

    /// Builds a value that takes over the descriptor of `owned`.
    fn from_fd(owned: OwnedFd) -> (built: Self)
        ensures
            built.adopted_fd() == owned@,
    ;

    /// Builds a value that takes over the descriptor of anything that can
    /// be consumed for one.
    fn from_into_fd<Owned: IntoFd>(into_owned: Owned) -> (built: Self)
        ensures
            built.adopted_fd() == into_owned.owned_fd(),
    {
        Self::from_fd(into_owned.into_fd())
    }
}

/// A type that can lend its handle.
pub trait AsHandle {
    /// The handle that this value lends.
    open spec fn borrowed_handle(&self) -> RawHandle {
        arbitrary()
    }

    /// Lends the handle for as long as `self` is borrowed. A null handle
    /// cannot be lent.
    fn as_handle(&self) -> (borrowed: BorrowedHandle<'_>)
        requires
            self.borrowed_handle() != NULL_HANDLE,
        ensures
            borrowed@ == self.borrowed_handle(),
    ;
}

/// A type that can be consumed for its handle.
pub trait IntoHandle: Sized {
    /// The handle that this value owns and gives up when consumed.
    open spec fn owned_handle(&self) -> RawHandle {
        arbitrary()
    }

    /// Consumes the value and hands over its handle, still open.
    fn into_handle(self) -> (owned: OwnedHandle)
        ensures
            owned@ == self.owned_handle(),
    ;
}

/// A type that can be built around a handle.
pub trait FromHandle: Sized {
    /// The handle that this value was built around.
    open spec fn adopted_handle(&self) -> RawHandle {
        arbitrary()
    }

    /// Builds a value that takes over the handle of `owned`.
    fn from_handle(owned: OwnedHandle) -> (built: Self)
        ensures
            built.adopted_handle() == owned@,
    ;

    /// Builds a value that takes over the handle of anything that can be
    /// consumed for one.
    fn from_into_handle<Owned: IntoHandle>(into_owned: Owned) -> (built: Self)
        ensures
            built.adopted_handle() == into_owned.owned_handle(),
    {
        Self::from_handle(into_owned.into_handle())
    }
}

/// A type that can lend its socket.
pub trait AsSocket {
    /// The socket that this value lends.
    open spec fn borrowed_socket(&self) -> RawSocket {
        arbitrary()
    }

    /// Lends the socket for as long as `self` is borrowed.
    fn as_socket(&self) -> (borrowed: BorrowedSocket<'_>)
        ensures
            borrowed@ == self.borrowed_socket(),
    ;
}

/// A type that can be consumed for its socket.
pub trait IntoSocket: Sized {
    /// The socket that this value owns and gives up when consumed.
    open spec fn owned_socket(&self) -> RawSocket {
        arbitrary()
    }

    /// Consumes the value and hands over its socket, still open.
    fn into_socket(self) -> (owned: OwnedSocket)
        ensures
            owned@ == self.owned_socket(),
    ;
}

/// A type that can be built around a socket.
pub trait FromSocket: Sized {
    /// The socket that this value was built around.
    open spec fn adopted_socket(&self) -> RawSocket {
        arbitrary()
    }

    /// Builds a value that takes over the socket of `owned`.
    fn from_socket(owned: OwnedSocket) -> (built: Self)
        ensures
            built.adopted_socket() == owned@,
    ;

    /// Builds a value that takes over the socket of anything that can be
    /// consumed for one.
    fn from_into_socket<Owned: IntoSocket>(into_owned: Owned) -> (built: Self)
        ensures
            built.adopted_socket() == into_owned.owned_socket(),
    {
        Self::from_socket(into_owned.into_socket())
    }
}

impl<'fd> AsFd for BorrowedFd<'fd> {
    open spec fn borrowed_fd(&self) -> RawFd {
        self@
    }

    fn as_fd(&self) -> (borrowed: BorrowedFd<'_>) {
        BorrowedFd::borrow_raw_fd(self.as_raw_fd())
    }
}

impl AsFd for OwnedFd {
    open spec fn borrowed_fd(&self) -> RawFd {
        self@
    }

    fn as_fd(&self) -> (borrowed: BorrowedFd<'_>) {
        BorrowedFd::borrow_raw_fd(self.as_raw_fd())
    }
}

impl IntoFd for OwnedFd {
    open spec fn owned_fd(&self) -> RawFd {
        self@
    }

    fn into_fd(self) -> (owned: OwnedFd)
        ensures
            owned == self,
    {
        let fd = self.into_raw_fd();
        let owned = OwnedFd::own_raw_fd(fd);
        proof {
            owned.lemma_determined_by_view(self);
        }
        owned
    }
}

impl FromFd for OwnedFd {
    open spec fn adopted_fd(&self) -> RawFd {
        self@
    }

    fn from_fd(owned: OwnedFd) -> (built: Self)
        ensures
            built == owned,
    {
        let fd = owned.into_raw_fd();
        let built = OwnedFd::own_raw_fd(fd);
        proof {
            built.lemma_determined_by_view(owned);
        }
        built
    }
}

impl<'handle> AsHandle for BorrowedHandle<'handle> {
    open spec fn borrowed_handle(&self) -> RawHandle {
        self@
    }

    fn as_handle(&self) -> (borrowed: BorrowedHandle<'_>) {
        BorrowedHandle::borrow_raw_handle(self.as_raw_handle())
    }
}

impl AsHandle for OwnedHandle {
    open spec fn borrowed_handle(&self) -> RawHandle {
        self@
    }

    fn as_handle(&self) -> (borrowed: BorrowedHandle<'_>) {
        BorrowedHandle::borrow_raw_handle(self.as_raw_handle())
    }
}

impl IntoHandle for OwnedHandle {
    open spec fn owned_handle(&self) -> RawHandle {
        self@
    }

    fn into_handle(self) -> (owned: OwnedHandle)
        ensures
            owned == self,
    {
        let handle = self.into_raw_handle();
        let owned = OwnedHandle::from_raw_handle(handle);
        proof {
            owned.lemma_determined_by_view(self);
        }
        owned
    }
}

impl FromHandle for OwnedHandle {
    open spec fn adopted_handle(&self) -> RawHandle {
        self@
    }

    fn from_handle(owned: OwnedHandle) -> (built: Self)
        ensures
            built == owned,
    {
        let handle = owned.into_raw_handle();
        let built = OwnedHandle::from_raw_handle(handle);
        proof {
            built.lemma_determined_by_view(owned);
        }
        built
    }
}

impl FromHandle for HandleOrInvalid {
    open spec fn adopted_handle(&self) -> RawHandle {
        self@
    }

    fn from_handle(owned: OwnedHandle) -> (built: Self)
        ensures
            built == HandleOrInvalid::from_raw_handle(owned@),
    {
        HandleOrInvalid::from_raw_handle(owned.into_raw_handle())
    }
}

impl<'socket> AsSocket for BorrowedSocket<'socket> {
    open spec fn borrowed_socket(&self) -> RawSocket {
        self@
    }

    fn as_socket(&self) -> (borrowed: BorrowedSocket<'_>) {
        BorrowedSocket::borrow_raw_socket(self.as_raw_socket())
    }
}

impl AsSocket for OwnedSocket {
    open spec fn borrowed_socket(&self) -> RawSocket {
        self@
    }

    fn as_socket(&self) -> (borrowed: BorrowedSocket<'_>) {
        BorrowedSocket::borrow_raw_socket(self.as_raw_socket())
    }
}

impl IntoSocket for OwnedSocket {
    open spec fn owned_socket(&self) -> RawSocket {
        self@
    }

    fn into_socket(self) -> (owned: OwnedSocket)
        ensures
            owned == self,
    {
        let socket = self.into_raw_socket();
        let owned = OwnedSocket::from_raw_socket(socket);
        proof {
            owned.lemma_determined_by_view(self);
        }
        owned
    }
}

impl FromSocket for OwnedSocket {
    open spec fn adopted_socket(&self) -> RawSocket {
        self@
    }

    fn from_socket(owned: OwnedSocket) -> (built: Self)
        ensures
            built == owned,
    {
        let socket = owned.into_raw_socket();
        let built = OwnedSocket::from_raw_socket(socket);
        proof {
            built.lemma_determined_by_view(owned);
        }
        built
    }
}

} // verus!
