//! File-like and socket-like roles where files and sockets differ.
//!
//! Code that wants to run on more than one kind of system speaks of
//! "file-like" and "socket-like" resources. Here a file-like resource is a
//! handle and a socket-like one is a socket, and neither can stand in for
//! the other. Every type that plays a handle role plays the file-like role
//! of the same kind, and every type that plays a socket role the
//! socket-like one.

use vstd::prelude::*;
use crate::raw::RawHandle;
use crate::raw::RawSocket;
use crate::raw::NULL_HANDLE;
use crate::traits::AsHandle;
use crate::traits::AsSocket;
use crate::traits::FromHandle;
use crate::traits::FromSocket;
use crate::traits::IntoHandle;
use crate::traits::IntoSocket;
use crate::types::BorrowedHandle;
use crate::types::BorrowedSocket;
use crate::types::OwnedHandle;
use crate::types::OwnedSocket;
use crate::windows::views::FilelikeView;
use crate::windows::views::FilelikeViewType;
use crate::windows::views::SocketlikeView;
use crate::windows::views::SocketlikeViewType;

verus! {

/// A borrowed file-like resource.
pub type BorrowedFilelike<'filelike> = BorrowedHandle<'filelike>;

/// A borrowed socket-like resource.
pub type BorrowedSocketlike<'socketlike> = BorrowedSocket<'socketlike>;

/// An owned file-like resource.
pub type OwnedFilelike = OwnedHandle;

/// An owned socket-like resource.
pub type OwnedSocketlike = OwnedSocket;

/// The raw identifier of a file-like resource.
pub type RawFilelike = RawHandle;

/// The raw identifier of a socket-like resource.
pub type RawSocketlike = RawSocket;

/// A type that can lend its file-like resource.
pub trait AsFilelike: AsHandle {
    /// Lends the resource. A null handle cannot be lent.
    fn as_filelike(&self) -> (borrowed: BorrowedFilelike<'_>)
        requires
            self.borrowed_handle() != NULL_HANDLE,
        ensures
            borrowed@ == self.borrowed_handle(),
    ;

    /// Lends the resource in the shape of a `Target`. The view starts out
    /// holding a target built around the very handle that `self` lends.
    fn as_filelike_view<Target: FilelikeViewType>(&self) -> (view: FilelikeView<'_, Target>)
        requires
            self.borrowed_handle() != NULL_HANDLE,
        ensures
            view.orig() == self.borrowed_handle(),
            view.target().adopted_handle() == self.borrowed_handle(),
    ;
}

impl<T: AsHandle> AsFilelike for T {
    fn as_filelike(&self) -> (borrowed: BorrowedFilelike<'_>) {
        self.as_handle()
    }

    fn as_filelike_view<Target: FilelikeViewType>(&self) -> (view: FilelikeView<'_, Target>) {
        FilelikeView::new(self)
    }
}

/// A type that can lend its socket-like resource.
pub trait AsSocketlike: AsSocket {
    /// Lends the resource.
    fn as_socketlike(&self) -> (borrowed: BorrowedSocketlike<'_>)
        ensures
            borrowed@ == self.borrowed_socket(),
    ;

    /// Lends the resource in the shape of a `Target`. The view starts out
    /// holding a target built around the very socket that `self` lends.
    fn as_socketlike_view<Target: SocketlikeViewType>(&self) -> (view: SocketlikeView<
        '_,
        Target,
    >)
        ensures
            view.orig() == self.borrowed_socket(),
            view.target().adopted_socket() == self.borrowed_socket(),
    ;
}

impl<T: AsSocket> AsSocketlike for T {
    fn as_socketlike(&self) -> (borrowed: BorrowedSocketlike<'_>) {
        self.as_socket()
    }

    fn as_socketlike_view<Target: SocketlikeViewType>(&self) -> (view: SocketlikeView<
        '_,
        Target,
    >) {
        SocketlikeView::new(self)
    }
}

/// A type that can be consumed for its file-like resource.
pub trait IntoFilelike: IntoHandle {
    /// Consumes the value and hands over its resource, still open.
    fn into_filelike(self) -> (owned: OwnedFilelike)
        ensures
            owned@ == self.owned_handle(),
    ;
}

impl<T: IntoHandle> IntoFilelike for T {
    fn into_filelike(self) -> (owned: OwnedFilelike) {
        self.into_handle()
    }
}

/// A type that can be consumed for its socket-like resource.
pub trait IntoSocketlike: IntoSocket {
    /// Consumes the value and hands over its resource, still open.
    fn into_socketlike(self) -> (owned: OwnedSocketlike)
        ensures
            owned@ == self.owned_socket(),
    ;
}

impl<T: IntoSocket> IntoSocketlike for T {
    fn into_socketlike(self) -> (owned: OwnedSocketlike) {
        self.into_socket()
    }
}

/// A type that can be built around a file-like resource.
pub trait FromFilelike: FromHandle {
    /// Builds a value that takes over the resource of `owned`.
    fn from_filelike(owned: OwnedFilelike) -> (built: Self)
        ensures
            built.adopted_handle() == owned@,
    ;

    /// Builds a value that takes over the resource of anything that can be
    /// consumed for a file-like one.
    fn from_into_filelike<Owned: IntoFilelike>(owned: Owned) -> (built: Self)
        ensures
            built.adopted_handle() == owned.owned_handle(),
    ;
}

impl<T: FromHandle> FromFilelike for T {
    fn from_filelike(owned: OwnedFilelike) -> (built: Self) {
        Self::from_handle(owned)
    }

    fn from_into_filelike<Owned: IntoFilelike>(owned: Owned) -> (built: Self) {
        Self::from_filelike(owned.into_filelike())
    }
}

/// A type that can be built around a socket-like resource.
pub trait FromSocketlike: FromSocket {
    /// Builds a value that takes over the resource of `owned`.
    fn from_socketlike(owned: OwnedSocketlike) -> (built: Self)
        ensures
            built.adopted_socket() == owned@,
    ;

    /// Builds a value that takes over the resource of anything that can be
    /// consumed for a socket-like one.
    fn from_into_socketlike<Owned: IntoSocketlike>(owned: Owned) -> (built: Self)
        ensures
            built.adopted_socket() == owned.owned_socket(),
    ;
}

impl<T: FromSocket> FromSocketlike for T {
    fn from_socketlike(owned: OwnedSocketlike) -> (built: Self) {
        Self::from_socket(owned)
    }

    fn from_into_socketlike<Owned: IntoSocketlike>(owned: Owned) -> (built: Self) {
        Self::from_socketlike(owned.into_socketlike())
    }
}

} // verus!
