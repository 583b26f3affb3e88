//! File-like and socket-like roles where every resource is a descriptor.
//!
//! Code that wants to run on more than one kind of system speaks of
//! "file-like" and "socket-like" resources. Here both are file descriptors,
//! so each role below is the descriptor role under another name, and every
//! type that plays the descriptor role plays it.

use vstd::prelude::*;
use crate::raw::RawFd;
use crate::traits::AsFd;
use crate::traits::FromFd;
use crate::traits::IntoFd;
use crate::types::BorrowedFd;
use crate::types::OwnedFd;
use crate::unix::views::FilelikeView;
use crate::unix::views::FilelikeViewType;
use crate::unix::views::SocketlikeView;
use crate::unix::views::SocketlikeViewType;

verus! {

/// A borrowed file-like resource.
pub type BorrowedFilelike<'filelike> = BorrowedFd<'filelike>;

/// A borrowed socket-like resource.
pub type BorrowedSocketlike<'socketlike> = BorrowedFd<'socketlike>;

/// An owned file-like resource.
pub type OwnedFilelike = OwnedFd;

/// An owned socket-like resource.
pub type OwnedSocketlike = OwnedFd;

/// The raw identifier of a file-like resource.
pub type RawFilelike = RawFd;

/// The raw identifier of a socket-like resource.
pub type RawSocketlike = RawFd;

/// A type that can lend its file-like resource.
pub trait AsFilelike: AsFd {
    /// Lends the resource.
    fn as_filelike(&self) -> (borrowed: BorrowedFilelike<'_>)
        ensures
            borrowed@ == self.borrowed_fd(),
    ;

    /// Lends the resource in the shape of a `Target`. The view starts out
    /// holding a target built around the very descriptor that `self` lends.
    fn as_filelike_view<Target: FilelikeViewType>(&self) -> (view: FilelikeView<'_, Target>)
        ensures
            view.orig() == self.borrowed_fd(),
            view.target().adopted_fd() == self.borrowed_fd(),
    ;
}

impl<T: AsFd> AsFilelike for T {
    fn as_filelike(&self) -> (borrowed: BorrowedFilelike<'_>) {
        self.as_fd()
    }

    fn as_filelike_view<Target: FilelikeViewType>(&self) -> (view: FilelikeView<'_, Target>) {
        FilelikeView::new(self)
    }
}

/// A type that can lend its socket-like resource.
pub trait AsSocketlike: AsFd {
    /// Lends the resource.
    fn as_socketlike(&self) -> (borrowed: BorrowedSocketlike<'_>)
        ensures
            borrowed@ == self.borrowed_fd(),
    ;

    /// Lends the resource in the shape of a `Target`. The view starts out
    /// holding a target built around the very descriptor that `self` lends.
    fn as_socketlike_view<Target: SocketlikeViewType>(&self) -> (view: SocketlikeView<
        '_,
        Target,
    >)
        ensures
            view.orig() == self.borrowed_fd(),
            view.target().adopted_fd() == self.borrowed_fd(),
    ;
}

impl<T: AsFd> AsSocketlike for T {
    fn as_socketlike(&self) -> (borrowed: BorrowedSocketlike<'_>) {
        self.as_fd()
    }

    fn as_socketlike_view<Target: SocketlikeViewType>(&self) -> (view: SocketlikeView<
        '_,
        Target,
    >) {
        SocketlikeView::new(self)
    }
}

/// A type that can be consumed for its file-like resource.
pub trait IntoFilelike: IntoFd {
    /// Consumes the value and hands over its resource, still open.
    fn into_filelike(self) -> (owned: OwnedFilelike)
        ensures
            owned@ == self.owned_fd(),
    ;
}

impl<T: IntoFd> IntoFilelike for T {
    fn into_filelike(self) -> (owned: OwnedFilelike) {
        self.into_fd()
    }
}

/// A type that can be consumed for its socket-like resource.
pub trait IntoSocketlike: IntoFd {
    /// Consumes the value and hands over its resource, still open.
    fn into_socketlike(self) -> (owned: OwnedSocketlike)
        ensures
            owned@ == self.owned_fd(),
    ;
}

impl<T: IntoFd> IntoSocketlike for T {
    fn into_socketlike(self) -> (owned: OwnedSocketlike) {
        self.into_fd()
    }
}

/// A type that can be built around a file-like resource.
pub trait FromFilelike: FromFd {
    /// Builds a value that takes over the resource of `owned`.
    fn from_filelike(owned: OwnedFilelike) -> (built: Self)
        ensures
            built.adopted_fd() == owned@,
    ;

    /// Builds a value that takes over the resource of anything that can be
    /// consumed for a file-like one.
    fn from_into_filelike<Owned: IntoFilelike>(owned: Owned) -> (built: Self)
        ensures
            built.adopted_fd() == owned.owned_fd(),
    ;
}

impl<T: FromFd> FromFilelike for T {
    fn from_filelike(owned: OwnedFilelike) -> (built: Self) {
        Self::from_fd(owned)
    }

    fn from_into_filelike<Owned: IntoFilelike>(owned: Owned) -> (built: Self) {
        Self::from_filelike(owned.into_filelike())
    }
}

/// A type that can be built around a socket-like resource.
pub trait FromSocketlike: FromFd {
    /// Builds a value that takes over the resource of `owned`.
    fn from_socketlike(owned: OwnedSocketlike) -> (built: Self)
        ensures
            built.adopted_fd() == owned@,
    ;

    /// Builds a value that takes over the resource of anything that can be
    /// consumed for a socket-like one.
    fn from_into_socketlike<Owned: IntoSocketlike>(owned: Owned) -> (built: Self)
        ensures
            built.adopted_fd() == owned.owned_fd(),
    ;
}

impl<T: FromFd> FromSocketlike for T {
    fn from_socketlike(owned: OwnedSocketlike) -> (built: Self) {
        Self::from_fd(owned)
    }

    fn from_into_socketlike<Owned: IntoSocketlike>(owned: Owned) -> (built: Self) {
        Self::from_socketlike(owned.into_socketlike())
    }
}

} // verus!
