use io_lifetimes::raw::{
    is_fd_sentinel, is_handle_sentinel, is_invalid_handle, is_null_handle, is_socket_sentinel,
    RawFd, RawHandle, RawSocket, INVALID_FD, INVALID_HANDLE_VALUE, INVALID_SOCKET, NULL_HANDLE,
};
use io_lifetimes::{
    AsFd, AsHandle, AsSocket, BorrowedFd, BorrowedHandle, BorrowedSocket, FromFd, FromHandle,
    FromSocket, HandleOrInvalid, HandleOrNull, IntoFd, IntoHandle, IntoSocket, OwnedFd,
    OwnedHandle, OwnedSocket,
};
use std::convert::TryFrom;
use std::mem::{size_of, size_of_val};

#[test]
fn test_assumptions() {
    assert_eq!(size_of::<RawFd>(), size_of::<i32>());
}

#[test]
fn assumptions_test_assumptions() {
    assert_eq!(size_of::<RawSocket>(), size_of::<usize>());
    assert_eq!(INVALID_SOCKET, usize::MAX);
    assert_ne!(INVALID_HANDLE_VALUE, NULL_HANDLE);
}

#[test]
fn test_niche_optimizations() {
    // An optional descriptor is written in a raw one: the reserved value
    // says that there is none.
    assert_eq!(
        size_of_val(&OwnedFd::option_into_raw(OwnedFd::option_from_raw(-1))),
        size_of::<RawFd>()
    );
    assert_eq!(
        size_of_val(&BorrowedFd::option_into_raw(BorrowedFd::option_from_raw(-1))),
        size_of::<RawFd>()
    );
    assert_eq!(OwnedFd::option_into_raw(None), -1);
    assert_eq!(BorrowedFd::option_into_raw(None), -1);
    assert!(OwnedFd::option_from_raw(-1).is_none());
    assert!(BorrowedFd::option_from_raw(-1).is_none());
    assert_eq!(
        OwnedFd::option_into_raw(OwnedFd::option_from_raw(RawFd::MIN)),
        RawFd::MIN
    );
    assert_eq!(
        OwnedFd::option_into_raw(OwnedFd::option_from_raw(RawFd::MAX)),
        RawFd::MAX
    );
    assert_eq!(OwnedFd::own_raw_fd(RawFd::MIN).into_raw_fd(), RawFd::MIN);
    assert_eq!(OwnedFd::own_raw_fd(RawFd::MAX).into_raw_fd(), RawFd::MAX);
    assert_eq!(
        Some(OwnedFd::own_raw_fd(RawFd::MIN))
            .unwrap()
            .into_raw_fd(),
        RawFd::MIN
    );
    assert_eq!(
        Some(OwnedFd::own_raw_fd(RawFd::MAX))
            .unwrap()
            .into_raw_fd(),
        RawFd::MAX
    );
}

#[test]
fn test_niche_optimizations_socket() {
    // An optional socket is written in a raw one: the reserved value says
    // that there is none.
    assert_eq!(
        size_of_val(&OwnedSocket::option_into_raw(OwnedSocket::option_from_raw(
            INVALID_SOCKET
        ))),
        size_of::<RawSocket>()
    );
    assert_eq!(
        size_of_val(&BorrowedSocket::option_into_raw(
            BorrowedSocket::option_from_raw(INVALID_SOCKET)
        )),
        size_of::<RawSocket>()
    );
    assert_eq!(OwnedSocket::option_into_raw(None), INVALID_SOCKET);
    assert_eq!(BorrowedSocket::option_into_raw(None), INVALID_SOCKET);
    assert!(OwnedSocket::option_from_raw(RawSocket::MAX).is_none());
    assert!(BorrowedSocket::option_from_raw(RawSocket::MAX).is_none());
    assert_eq!(
        OwnedSocket::option_into_raw(OwnedSocket::option_from_raw(RawSocket::MIN)),
        RawSocket::MIN
    );
    assert_eq!(
        OwnedSocket::from_raw_socket(RawSocket::MIN).into_raw_socket(),
        RawSocket::MIN
    );
    assert_eq!(
        OwnedSocket::from_raw_socket(RawSocket::MAX - 1).into_raw_socket(),
        RawSocket::MAX - 1
    );
    assert_eq!(
        Some(OwnedSocket::from_raw_socket(RawSocket::MIN))
            .unwrap()
            .into_raw_socket(),
        RawSocket::MIN
    );
    assert_eq!(
        Some(OwnedSocket::from_raw_socket(RawSocket::MAX - 1))
            .unwrap()
            .into_raw_socket(),
        RawSocket::MAX - 1
    );
}

#[test]
fn wrappers_have_the_size_of_the_raw_value() {
    assert_eq!(size_of::<OwnedFd>(), size_of::<RawFd>());
    assert_eq!(size_of::<BorrowedFd<'static>>(), size_of::<RawFd>());
    assert_eq!(size_of::<OwnedSocket>(), size_of::<RawSocket>());
    assert_eq!(size_of::<BorrowedSocket<'static>>(), size_of::<RawSocket>());
}

#[test]
fn handle_wrappers_have_the_size_of_a_handle() {
    assert_eq!(size_of::<OwnedHandle>(), size_of::<RawHandle>());
    assert_eq!(size_of::<BorrowedHandle<'static>>(), size_of::<RawHandle>());
    assert_eq!(size_of::<HandleOrInvalid>(), size_of::<RawHandle>());
    assert_eq!(size_of::<HandleOrNull>(), size_of::<RawHandle>());
}

#[test]
fn sentinel_values() {
    assert_eq!(INVALID_FD, -1);
    assert_eq!(NULL_HANDLE, 0);
    assert_eq!(INVALID_HANDLE_VALUE, usize::MAX);
    assert_eq!(INVALID_SOCKET, usize::MAX);
}

#[test]
fn sentinel_predicates() {
    assert!(is_fd_sentinel(-1));
    assert!(!is_fd_sentinel(0));
    assert!(!is_fd_sentinel(-2));
    assert!(!is_fd_sentinel(i32::MIN));
    assert!(!is_fd_sentinel(i32::MAX));

    assert!(is_null_handle(0));
    assert!(!is_null_handle(1));
    assert!(!is_null_handle(usize::MAX));

    assert!(is_invalid_handle(usize::MAX));
    assert!(!is_invalid_handle(0));
    assert!(!is_invalid_handle(usize::MAX - 1));

    assert!(is_handle_sentinel(0));
    assert!(is_handle_sentinel(usize::MAX));
    assert!(!is_handle_sentinel(1));
    assert!(!is_handle_sentinel(usize::MAX - 1));

    assert!(is_socket_sentinel(usize::MAX));
    assert!(!is_socket_sentinel(0));
    assert!(!is_socket_sentinel(usize::MAX - 1));
}

#[test]
fn fd_round_trip_keeps_the_value() {
    for raw in [0, 1, 2, 3, 1000, -2, i32::MIN, i32::MAX] {
        assert_eq!(OwnedFd::own_raw_fd(raw).into_raw_fd(), raw);
        assert_eq!(OwnedFd::own_raw_fd(raw).as_raw_fd(), raw);
        assert_eq!(BorrowedFd::borrow_raw_fd(raw).as_raw_fd(), raw);
    }
}

#[test]
fn handle_round_trip_keeps_the_value() {
    for raw in [0, 1, 4, 0x1000, usize::MAX - 1, usize::MAX] {
        assert_eq!(OwnedHandle::from_raw_handle(raw).into_raw_handle(), raw);
        assert_eq!(OwnedHandle::from_raw_handle(raw).as_raw_handle(), raw);
    }
    for raw in [1, 4, 0x1000, usize::MAX - 1, usize::MAX] {
        assert_eq!(BorrowedHandle::borrow_raw_handle(raw).as_raw_handle(), raw);
    }
}

#[test]
fn socket_round_trip_keeps_the_value() {
    for raw in [0, 1, 4, 0x1000, usize::MAX - 1] {
        assert_eq!(OwnedSocket::from_raw_socket(raw).into_raw_socket(), raw);
        assert_eq!(OwnedSocket::from_raw_socket(raw).as_raw_socket(), raw);
        assert_eq!(BorrowedSocket::borrow_raw_socket(raw).as_raw_socket(), raw);
    }
}

#[test]
fn borrowed_values_are_copies() {
    let borrowed = BorrowedFd::borrow_raw_fd(7);
    let copy = borrowed;
    assert_eq!(borrowed.as_raw_fd(), 7);
    assert_eq!(copy.as_raw_fd(), 7);
    let cloned = borrowed.clone();
    assert_eq!(cloned.as_raw_fd(), 7);
}

#[test]
fn handle_or_invalid_rejects_the_invalid_value() {
    let failed = HandleOrInvalid::from_raw_handle(INVALID_HANDLE_VALUE);
    assert!(OwnedHandle::try_from(failed).is_err());
}

#[test]
fn handle_or_invalid_accepts_every_other_value() {
    for raw in [0, 1, 4, 0x1000, usize::MAX - 1] {
        let wrapped = HandleOrInvalid::from_raw_handle(raw);
        let owned = OwnedHandle::try_from(wrapped).unwrap();
        assert_eq!(owned.into_raw_handle(), raw);
    }
}

#[test]
fn handle_or_null_rejects_null() {
    let failed = HandleOrNull::from_raw_handle(NULL_HANDLE);
    assert!(OwnedHandle::try_from(failed).is_err());
}

#[test]
fn handle_or_null_accepts_every_other_value() {
    for raw in [1, 4, 0x1000, usize::MAX - 1, usize::MAX] {
        let wrapped = HandleOrNull::from_raw_handle(raw);
        let owned = OwnedHandle::try_from(wrapped).unwrap();
        assert_eq!(owned.into_raw_handle(), raw);
    }
}

#[test]
fn try_into_goes_the_same_way() {
    let converted: Result<OwnedHandle, ()> = HandleOrInvalid::from_raw_handle(9).try_into();
    assert_eq!(converted.unwrap().into_raw_handle(), 9);
    let converted: Result<OwnedHandle, ()> =
        HandleOrNull::from_raw_handle(NULL_HANDLE).try_into();
    assert!(converted.is_err());
}

#[test]
fn teardown_of_an_owner_asks_for_one_close() {
    assert_eq!(OwnedFd::own_raw_fd(5).teardown(), Some(5));
    assert_eq!(OwnedFd::own_raw_fd(i32::MIN).teardown(), Some(i32::MIN));
    assert_eq!(OwnedHandle::from_raw_handle(5).teardown(), Some(5));
    assert_eq!(OwnedHandle::from_raw_handle(0).teardown(), Some(0));
    assert_eq!(
        OwnedHandle::from_raw_handle(usize::MAX).teardown(),
        Some(usize::MAX)
    );
    assert_eq!(OwnedSocket::from_raw_socket(5).teardown(), Some(5));
}

#[test]
fn teardown_of_a_failed_call_asks_for_nothing() {
    assert_eq!(
        HandleOrInvalid::from_raw_handle(INVALID_HANDLE_VALUE).teardown(),
        None
    );
    assert_eq!(HandleOrNull::from_raw_handle(NULL_HANDLE).teardown(), None);
}

#[test]
fn teardown_of_an_unconverted_handle_asks_for_its_close() {
    assert_eq!(HandleOrInvalid::from_raw_handle(8).teardown(), Some(8));
    assert_eq!(HandleOrInvalid::from_raw_handle(0).teardown(), Some(0));
    assert_eq!(HandleOrNull::from_raw_handle(8).teardown(), Some(8));
    assert_eq!(
        HandleOrNull::from_raw_handle(usize::MAX).teardown(),
        Some(usize::MAX)
    );
}

#[test]
fn roles_of_the_fd_types() {
    let owned = OwnedFd::own_raw_fd(11);
    assert_eq!(owned.as_fd().as_raw_fd(), 11);
    assert_eq!(owned.as_fd().as_fd().as_raw_fd(), 11);
    let owned = owned.into_fd();
    assert_eq!(owned.as_raw_fd(), 11);
    let owned = OwnedFd::from_fd(owned);
    assert_eq!(owned.as_raw_fd(), 11);
    let owned = OwnedFd::from_into_fd(owned);
    assert_eq!(owned.into_raw_fd(), 11);
}

#[test]
fn roles_of_the_handle_types() {
    let owned = OwnedHandle::from_raw_handle(12);
    assert_eq!(owned.as_handle().as_raw_handle(), 12);
    assert_eq!(owned.as_handle().as_handle().as_raw_handle(), 12);
    let owned = owned.into_handle();
    assert_eq!(owned.as_raw_handle(), 12);
    let owned = OwnedHandle::from_handle(owned);
    assert_eq!(owned.as_raw_handle(), 12);
    let owned = OwnedHandle::from_into_handle(owned);
    assert_eq!(owned.as_raw_handle(), 12);
    let wrapped = HandleOrInvalid::from_handle(owned);
    assert_eq!(wrapped.teardown(), Some(12));
    let wrapped = HandleOrInvalid::from_into_handle(OwnedHandle::from_raw_handle(usize::MAX));
    assert!(OwnedHandle::try_from(wrapped).is_err());
}

#[test]
fn roles_of_the_socket_types() {
    let owned = OwnedSocket::from_raw_socket(13);
    assert_eq!(owned.as_socket().as_raw_socket(), 13);
    assert_eq!(owned.as_socket().as_socket().as_raw_socket(), 13);
    let owned = owned.into_socket();
    assert_eq!(owned.as_raw_socket(), 13);
    let owned = OwnedSocket::from_socket(owned);
    assert_eq!(owned.as_raw_socket(), 13);
    let owned = OwnedSocket::from_into_socket(owned);
    assert_eq!(owned.into_raw_socket(), 13);
}

#[test]
fn debug_names_the_type_and_the_value() {
    let shown = format!("{:?}", OwnedFd::own_raw_fd(3));
    assert_eq!(shown, "OwnedFd { fd: 3 }");
    let shown = format!("{:?}", OwnedHandle::from_raw_handle(3));
    assert_eq!(shown, "OwnedHandle { handle: 3 }");
    let shown = format!("{:?}", OwnedSocket::from_raw_socket(3));
    assert_eq!(shown, "OwnedSocket { socket: 3 }");
    let shown = format!("{:?}", HandleOrInvalid::from_raw_handle(3));
    assert_eq!(shown, "HandleOrInvalid(3)");
    let shown = format!("{:?}", HandleOrNull::from_raw_handle(3));
    assert_eq!(shown, "HandleOrNull(3)");
    let shown = format!("{:?}", BorrowedFd::borrow_raw_fd(3));
    assert!(shown.starts_with("BorrowedFd { fd: 3"));
}

#[test]
fn optional_fd_uses_the_reserved_value() {
    assert!(OwnedFd::option_from_raw(-1).is_none());
    assert!(BorrowedFd::option_from_raw(-1).is_none());
    assert_eq!(OwnedFd::option_into_raw(None), -1);
    assert_eq!(BorrowedFd::option_into_raw(None), -1);
    for raw in [0, 1, 3, -2, i32::MIN, i32::MAX] {
        let owned = OwnedFd::option_from_raw(raw);
        assert_eq!(owned.as_ref().map(|o| o.as_raw_fd()), Some(raw));
        assert_eq!(OwnedFd::option_into_raw(owned), raw);
        let borrowed = BorrowedFd::option_from_raw(raw);
        assert_eq!(borrowed.map(|b| b.as_raw_fd()), Some(raw));
        assert_eq!(BorrowedFd::option_into_raw(borrowed), raw);
    }
    assert_eq!(
        OwnedFd::option_into_raw(OwnedFd::option_from_raw(-1)),
        -1
    );
}

#[test]
fn optional_socket_uses_the_reserved_value() {
    assert!(OwnedSocket::option_from_raw(usize::MAX).is_none());
    assert!(BorrowedSocket::option_from_raw(usize::MAX).is_none());
    assert_eq!(OwnedSocket::option_into_raw(None), usize::MAX);
    assert_eq!(BorrowedSocket::option_into_raw(None), usize::MAX);
    for raw in [0, 1, 3, usize::MAX - 1] {
        let owned = OwnedSocket::option_from_raw(raw);
        assert_eq!(owned.as_ref().map(|o| o.as_raw_socket()), Some(raw));
        assert_eq!(OwnedSocket::option_into_raw(owned), raw);
        let borrowed = BorrowedSocket::option_from_raw(raw);
        assert_eq!(borrowed.map(|b| b.as_raw_socket()), Some(raw));
        assert_eq!(BorrowedSocket::option_into_raw(borrowed), raw);
    }
}
