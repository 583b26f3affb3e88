//! Typed views: a borrowed handle or socket in the shape of an owning type.
//!
//! A view lets the holder of a mere borrow use the methods of a type that
//! normally owns its resource. It builds such a `Target` around the
//! borrowed identifier, lends it out, and at the end takes it apart again
//! without closing anything. The identifier that comes out must be the one
//! that went in; `release` says whether it is.

use vstd::prelude::*;
use std::marker::PhantomData;
use std::ops::Deref;
use std::ops::DerefMut;
use crate::raw::INVALID_SOCKET;
use crate::raw::NULL_HANDLE;
use crate::traits::AsHandle;
use crate::traits::AsSocket;
use crate::traits::FromHandle;
use crate::traits::FromSocket;
use crate::traits::IntoHandle;
use crate::traits::IntoSocket;
use crate::types::OwnedHandle;
use crate::types::OwnedSocket;
use crate::windows::portability::FromFilelike;
use crate::windows::portability::FromSocketlike;
use crate::windows::portability::IntoFilelike;
use crate::windows::portability::IntoSocketlike;
use crate::windows::portability::OwnedFilelike;
use crate::windows::portability::OwnedSocketlike;
use crate::windows::portability::RawFilelike;
use crate::windows::portability::RawSocketlike;

verus! {

/// Marks a type as fit for a `FilelikeView`.
///
/// Whoever implements this vouches that a value built around a handle gives
/// up that same handle when consumed, and that building and consuming it
/// acquire and release nothing else.
pub trait FilelikeViewType: FromFilelike + IntoFilelike {
}

/// Marks a type as fit for a `SocketlikeView`.
///
/// Whoever implements this vouches that a value built around a socket gives
/// up that same socket when consumed, and that building and consuming it
/// acquire and release nothing else.
pub trait SocketlikeViewType: FromSocketlike + IntoSocketlike {
}

impl FilelikeViewType for OwnedHandle {
}

impl SocketlikeViewType for OwnedSocket {
}

/// Whether every value of `Target` gives up the handle that it was built
/// around: what `FilelikeViewType` asks its implementors to vouch for.
pub open spec fn hands_back_handle<Target: FromHandle + IntoHandle>() -> bool {
    forall|target: Target| #[trigger] target.owned_handle() == target.adopted_handle()
}

/// Whether every value of `Target` gives up the socket that it was built
/// around: what `SocketlikeViewType` asks its implementors to vouch for.
pub open spec fn hands_back_socket<Target: FromSocket + IntoSocket>() -> bool {
    forall|target: Target| #[trigger] target.owned_socket() == target.adopted_socket()
}

/// A view of a borrowed file-like resource as a `Target`.
///
/// A view is ended with `release`. One that is merely dropped drops its
/// target as any value is dropped, so a host whose targets close what they
/// hold must see to it that every view is released.
pub struct FilelikeView<'filelike, Target: FilelikeViewType> {
    target: Target,
    orig: RawFilelike,
    _phantom: PhantomData<&'filelike OwnedFilelike>,
}

/// A view of a borrowed socket-like resource as a `Target`.
///
/// A view is ended with `release`. One that is merely dropped drops its
/// target as any value is dropped, so a host whose targets close what they
/// hold must see to it that every view is released.
pub struct SocketlikeView<'socketlike, Target: SocketlikeViewType> {
    target: Target,
    orig: RawSocketlike,
    _phantom: PhantomData<&'socketlike OwnedSocketlike>,
}

impl<'filelike, Target: FilelikeViewType> FilelikeView<'filelike, Target> {
    /// The target that the view lends out, as it is now.
    pub closed spec fn target(&self) -> Target {
        self.target
    }

    /// The handle that the view was made from.
    pub closed spec fn orig(&self) -> RawFilelike {
        self.orig
    }

    /// Whether the target, taken apart now, gives up the handle that the
    /// view was made from.
    pub open spec fn consistent(&self) -> bool {
        self.target().owned_handle() == self.orig()
    }

    /// Views the resource that `filelike` lends. A null handle cannot be
    /// lent.
    pub fn new<T: AsHandle>(filelike: &'filelike T) -> (view: Self)
        requires
            filelike.borrowed_handle() != NULL_HANDLE,
        ensures
            view.orig() == filelike.borrowed_handle(),
            view.target().adopted_handle() == filelike.borrowed_handle(),
    {
        Self::view_raw(filelike.as_handle().as_raw_handle())
    }

    /// Views the handle `raw`. The caller vouches that it is open and stays
    /// so for as long as the view lives.
    pub fn view_raw(raw: RawFilelike) -> (view: Self)
        ensures
            view.orig() == raw,
            view.target().adopted_handle() == raw,
    {
        let owned = OwnedFilelike::from_raw_handle(raw);
        FilelikeView { target: Target::from_filelike(owned), orig: raw, _phantom: PhantomData }
    }

    /// Ends the view. The target is taken apart into its handle, which is
    /// dropped on the floor unclosed: it belongs to whoever lent it. The
    /// result says whether that handle is the one the view was made from.
    pub fn release(self) -> (intact: bool)
        ensures
            intact == self.consistent(),
    {
        let raw = self.target.into_filelike().into_raw_handle();
        raw == self.orig
    }

    /// A view that has just been made of a type that hands back what it was
    /// given is consistent.
    pub proof fn lemma_fresh_view_consistent(self)
        requires
            hands_back_handle::<Target>(),
            self.target().adopted_handle() == self.orig(),
        ensures
            self.consistent(),
    {
    }

    /// Viewing leaves what was viewed as it was: a second view made of the
    /// same handle starts out as the first did, and each of them, ended
    /// untouched, reports the handle intact.
    pub proof fn lemma_second_view_alike(self, second: Self, raw: RawFilelike)
        requires
            hands_back_handle::<Target>(),
            self.orig() == raw,
            self.target().adopted_handle() == raw,
            second.orig() == raw,
            second.target().adopted_handle() == raw,
        ensures
            self.consistent(),
            second.consistent(),
            second.orig() == self.orig(),
            second.target().owned_handle() == self.target().owned_handle(),
    {
    }
}

impl<Target: FilelikeViewType> Deref for FilelikeView<'_, Target> {
    type Target = Target;

    fn deref(&self) -> (target: &Target)
        ensures
            *target == self.target(),
    {
        &self.target
    }
}

impl<Target: FilelikeViewType> DerefMut for FilelikeView<'_, Target> {
    fn deref_mut(&mut self) -> (target: &mut Target)
        ensures
            *target == old(self).target(),
            final(self).target() == *final(target),
            final(self).orig() == old(self).orig(),
    {
        &mut self.target
    }
}

impl<'socketlike, Target: SocketlikeViewType> SocketlikeView<'socketlike, Target> {
    /// The target that the view lends out, as it is now.
    pub closed spec fn target(&self) -> Target {
        self.target
    }

    /// The socket that the view was made from.
    pub closed spec fn orig(&self) -> RawSocketlike {
        self.orig
    }

    /// Whether the target, taken apart now, gives up the socket that the
    /// view was made from.
    pub open spec fn consistent(&self) -> bool {
        self.target().owned_socket() == self.orig()
    }

    /// Views the resource that `socketlike` lends.
    pub fn new<T: AsSocket>(socketlike: &'socketlike T) -> (view: Self)
        ensures
            view.orig() == socketlike.borrowed_socket(),
            view.target().adopted_socket() == socketlike.borrowed_socket(),
    {
        Self::view_raw(socketlike.as_socket().as_raw_socket())
    }

    /// Views the socket `raw`. The caller vouches that it stays open for as
    /// long as the view lives.
    pub fn view_raw(raw: RawSocketlike) -> (view: Self)
        requires
            raw != INVALID_SOCKET,
        ensures
            view.orig() == raw,
            view.target().adopted_socket() == raw,
    {
        let owned = OwnedSocketlike::from_raw_socket(raw);
        SocketlikeView { target: Target::from_socketlike(owned), orig: raw, _phantom: PhantomData }
    }

    /// Ends the view. The target is taken apart into its socket, which is
    /// dropped on the floor unclosed: it belongs to whoever lent it. The
    /// result says whether that socket is the one the view was made from.
    pub fn release(self) -> (intact: bool)
        ensures
            intact == self.consistent(),
    {
        let raw = self.target.into_socketlike().into_raw_socket();
        raw == self.orig
    }

    /// A view that has just been made of a type that hands back what it was
    /// given is consistent.
    pub proof fn lemma_fresh_view_consistent(self)
        requires
            hands_back_socket::<Target>(),
            self.target().adopted_socket() == self.orig(),
        ensures
            self.consistent(),
    {
    }

    /// Viewing leaves what was viewed as it was: a second view made of the
    /// same socket starts out as the first did, and each of them, ended
    /// untouched, reports the socket intact.
    pub proof fn lemma_second_view_alike(self, second: Self, raw: RawSocketlike)
        requires
            hands_back_socket::<Target>(),
            self.orig() == raw,
            self.target().adopted_socket() == raw,
            second.orig() == raw,
            second.target().adopted_socket() == raw,
        ensures
            self.consistent(),
            second.consistent(),
            second.orig() == self.orig(),
            second.target().owned_socket() == self.target().owned_socket(),
    {
    }
}

impl<Target: SocketlikeViewType> Deref for SocketlikeView<'_, Target> {
    type Target = Target;

    fn deref(&self) -> (target: &Target)
        ensures
            *target == self.target(),
    {
        &self.target
    }
}

impl<Target: SocketlikeViewType> DerefMut for SocketlikeView<'_, Target> {
    fn deref_mut(&mut self) -> (target: &mut Target)
        ensures
            *target == old(self).target(),
            final(self).target() == *final(target),
            final(self).orig() == old(self).orig(),
    {
        &mut self.target
    }
}

/// An owned handle hands back what it was given, so it can be viewed as
/// itself.
pub proof fn lemma_owned_handle_hands_back()
    ensures
        hands_back_handle::<OwnedHandle>(),
{
}

/// An owned socket hands back what it was given, so it can be viewed as
/// itself.
pub proof fn lemma_owned_socket_hands_back()
    ensures
        hands_back_socket::<OwnedSocket>(),
{
}

} // verus!
