//! Typed views: a borrowed descriptor in the shape of an owning type.
//!
//! A view lets the holder of a mere borrow use the methods of a type that
//! normally owns its descriptor. It builds such a `Target` around the
//! borrowed descriptor, lends it out, and at the end takes it apart again
//! without closing anything. The descriptor that comes out must be the one
//! that went in; `release` says whether it is.

use vstd::prelude::*;
use std::marker::PhantomData;
use std::ops::Deref;
use std::ops::DerefMut;
use crate::raw::INVALID_FD;
use crate::traits::FromFd;
use crate::traits::IntoFd;
use crate::traits::AsFd;
use crate::unix::portability::FromFilelike;
use crate::unix::portability::FromSocketlike;
use crate::unix::portability::IntoFilelike;
use crate::unix::portability::IntoSocketlike;
use crate::unix::portability::OwnedFilelike;
use crate::unix::portability::OwnedSocketlike;
use crate::unix::portability::RawFilelike;
use crate::unix::portability::RawSocketlike;
use crate::types::OwnedFd;

verus! {

/// Marks a type as fit for a `FilelikeView`.
///
/// Whoever implements this vouches that a value built around a descriptor
/// gives up that same descriptor when consumed, and that building and
/// consuming it acquire and release nothing else.
pub trait FilelikeViewType: FromFilelike + IntoFilelike {
}

/// Marks a type as fit for a `SocketlikeView`.
///
/// Whoever implements this vouches that a value built around a descriptor
/// gives up that same descriptor when consumed, and that building and
/// consuming it acquire and release nothing else.
pub trait SocketlikeViewType: FromSocketlike + IntoSocketlike {
}

impl FilelikeViewType for OwnedFd {
}

impl SocketlikeViewType for OwnedFd {
}

/// Whether every value of `Target` gives up the descriptor that it was built
/// around: what the view-type markers ask their implementors to vouch for.
pub open spec fn hands_back<Target: FromFd + IntoFd>() -> bool {
    forall|target: Target| #[trigger] target.owned_fd() == target.adopted_fd()
}

/// A view of a borrowed file-like resource as a `Target`.
///
/// A view is ended with `release`. One that is merely dropped drops its
/// target as any value is dropped, so a host whose targets close what they
/// hold must see to it that every view is released.
pub struct FilelikeView<'filelike, Target: FilelikeViewType> {
    target: Target,
    orig: RawFilelike,
    _phantom: PhantomData<&'filelike OwnedFilelike>,
}

/// A view of a borrowed socket-like resource as a `Target`.
///
/// A view is ended with `release`. One that is merely dropped drops its
/// target as any value is dropped, so a host whose targets close what they
/// hold must see to it that every view is released.
pub struct SocketlikeView<'socketlike, Target: SocketlikeViewType> {
    target: Target,
    orig: RawSocketlike,
    _phantom: PhantomData<&'socketlike OwnedSocketlike>,
}

impl<'filelike, Target: FilelikeViewType> FilelikeView<'filelike, Target> {
    /// The target that the view lends out, as it is now.
    pub closed spec fn target(&self) -> Target {
        self.target
    }

    /// The descriptor that the view was made from.
    pub closed spec fn orig(&self) -> RawFilelike {
        self.orig
    }

    /// Whether the target, taken apart now, gives up the descriptor that the
    /// view was made from.
    pub open spec fn consistent(&self) -> bool {
        self.target().owned_fd() == self.orig()
    }

    /// Views the resource that `filelike` lends.
    pub fn new<T: AsFd>(filelike: &'filelike T) -> (view: Self)
        ensures
            view.orig() == filelike.borrowed_fd(),
            view.target().adopted_fd() == filelike.borrowed_fd(),
    {
        Self::view_raw(filelike.as_fd().as_raw_fd())
    }

    /// Views the descriptor `raw`. The caller vouches that it stays open for
    /// as long as the view lives.
    pub fn view_raw(raw: RawFilelike) -> (view: Self)
        requires
            raw != INVALID_FD,
        ensures
            view.orig() == raw,
            view.target().adopted_fd() == raw,
    {
        let owned = OwnedFilelike::own_raw_fd(raw);
        FilelikeView { target: Target::from_filelike(owned), orig: raw, _phantom: PhantomData }
    }

    /// Ends the view. The target is taken apart into its descriptor, which
    /// is dropped on the floor unclosed: it belongs to whoever lent it. The
    /// result says whether that descriptor is the one the view was made
    /// from.
    pub fn release(self) -> (intact: bool)
        ensures
            intact == self.consistent(),
    {
        let raw = self.target.into_filelike().into_raw_fd();
        raw == self.orig
    }

    /// A view that has just been made of a type that hands back what it was
    /// given is consistent.
    pub proof fn lemma_fresh_view_consistent(self)
        requires
            hands_back::<Target>(),
            self.target().adopted_fd() == self.orig(),
        ensures
            self.consistent(),
    {
    }

    /// Viewing leaves what was viewed as it was: a second view made of the
    /// same descriptor starts out as the first did, and each of them, ended
    /// untouched, reports the descriptor intact.
    pub proof fn lemma_second_view_alike(self, second: Self, raw: RawFilelike)
        requires
            hands_back::<Target>(),
            self.orig() == raw,
            self.target().adopted_fd() == raw,
            second.orig() == raw,
            second.target().adopted_fd() == raw,
        ensures
            self.consistent(),
            second.consistent(),
            second.orig() == self.orig(),
            second.target().owned_fd() == self.target().owned_fd(),
    {
    }
}

impl<Target: FilelikeViewType> Deref for FilelikeView<'_, Target> {
    type Target = Target;

    fn deref(&self) -> (target: &Target)
        ensures
            *target == self.target(),
    {
        &self.target
    }
}

impl<Target: FilelikeViewType> DerefMut for FilelikeView<'_, Target> {
    fn deref_mut(&mut self) -> (target: &mut Target)
        ensures
            *target == old(self).target(),
            final(self).target() == *final(target),
            final(self).orig() == old(self).orig(),
    {
        &mut self.target
    }
}

impl<'socketlike, Target: SocketlikeViewType> SocketlikeView<'socketlike, Target> {
    /// The target that the view lends out, as it is now.
    pub closed spec fn target(&self) -> Target {
        self.target
    }

    /// The descriptor that the view was made from.
    pub closed spec fn orig(&self) -> RawSocketlike {
        self.orig
    }

    /// Whether the target, taken apart now, gives up the descriptor that the
    /// view was made from.
    pub open spec fn consistent(&self) -> bool {
        self.target().owned_fd() == self.orig()
    }

    /// Views the resource that `socketlike` lends.
    pub fn new<T: AsFd>(socketlike: &'socketlike T) -> (view: Self)
        ensures
            view.orig() == socketlike.borrowed_fd(),
            view.target().adopted_fd() == socketlike.borrowed_fd(),
    {
        Self::view_raw(socketlike.as_fd().as_raw_fd())
    }

    /// Views the descriptor `raw`. The caller vouches that it stays open for
    /// as long as the view lives.
    pub fn view_raw(raw: RawSocketlike) -> (view: Self)
        requires
            raw != INVALID_FD,
        ensures
            view.orig() == raw,
            view.target().adopted_fd() == raw,
    {
        let owned = OwnedSocketlike::own_raw_fd(raw);
        SocketlikeView { target: Target::from_socketlike(owned), orig: raw, _phantom: PhantomData }
    }

    /// Ends the view. The target is taken apart into its descriptor, which
    /// is dropped on the floor unclosed: it belongs to whoever lent it. The
    /// result says whether that descriptor is the one the view was made
    /// from.
    pub fn release(self) -> (intact: bool)
        ensures
            intact == self.consistent(),
    {
        let raw = self.target.into_socketlike().into_raw_fd();
        raw == self.orig
    }

    /// A view that has just been made of a type that hands back what it was
    /// given is consistent.
    pub proof fn lemma_fresh_view_consistent(self)
        requires
            hands_back::<Target>(),
            self.target().adopted_fd() == self.orig(),
        ensures
            self.consistent(),
    {
    }

    /// Viewing leaves what was viewed as it was: a second view made of the
    /// same descriptor starts out as the first did, and each of them, ended
    /// untouched, reports the descriptor intact.
    pub proof fn lemma_second_view_alike(self, second: Self, raw: RawSocketlike)
        requires
            hands_back::<Target>(),
            self.orig() == raw,
            self.target().adopted_fd() == raw,
            second.orig() == raw,
            second.target().adopted_fd() == raw,
        ensures
            self.consistent(),
            second.consistent(),
            second.orig() == self.orig(),
            second.target().owned_fd() == self.target().owned_fd(),
    {
    }
}

impl<Target: SocketlikeViewType> Deref for SocketlikeView<'_, Target> {
    type Target = Target;

    fn deref(&self) -> (target: &Target)
        ensures
            *target == self.target(),
    {
        &self.target
    }
}

impl<Target: SocketlikeViewType> DerefMut for SocketlikeView<'_, Target> {
    fn deref_mut(&mut self) -> (target: &mut Target)
        ensures
            *target == old(self).target(),
            final(self).target() == *final(target),
            final(self).orig() == old(self).orig(),
    {
        &mut self.target
    }
}

/// An owned descriptor hands back what it was given, so it can be viewed as
/// itself.
pub proof fn lemma_owned_fd_hands_back()
    ensures
        hands_back::<OwnedFd>(),
{
}

} // verus!
