use io_lifetimes::unix::portability::{AsFilelike, AsSocketlike};
use io_lifetimes::unix::views::{
    FilelikeView, FilelikeViewType, SocketlikeView, SocketlikeViewType,
};
use io_lifetimes::windows::views::{
    FilelikeView as HandleView, SocketlikeView as SocketView,
};
use io_lifetimes::{
    AsFd, BorrowedFd, FromFd, IntoFd, OwnedFd, OwnedHandle, OwnedSocket,
};
use std::cell::RefCell;
use std::collections::BTreeMap;
use std::rc::Rc;

/// A table of open files that lives in memory and counts what is done to it.
#[derive(Default)]
struct Table {
    files: BTreeMap<i32, Vec<u8>>,
    next: i32,
    closes: Vec<i32>,
}

impl Table {
    fn open(&mut self) -> i32 {
        let fd = self.next + 3;
        self.next += 1;
        self.files.insert(fd, Vec::new());
        fd
    }

    fn write(&mut self, fd: BorrowedFd<'_>, bytes: &[u8]) -> isize {
        match self.files.get_mut(&fd.as_raw_fd()) {
            Some(content) => {
                content.extend_from_slice(bytes);
                bytes.len() as isize
            }
            None => -1,
        }
    }

    fn close(&mut self, fd: OwnedFd) -> i32 {
        let raw = fd.into_raw_fd();
        self.closes.push(raw);
        0
    }
}

/// A file type that owns its descriptor and writes through a shared table.
struct File {
    owned: OwnedFd,
}

impl File {
    fn write(&self, table: &Rc<RefCell<Table>>, bytes: &[u8]) -> isize {
        table.borrow_mut().write(self.owned.as_fd(), bytes)
    }

    fn fd(&self) -> i32 {
        self.owned.as_raw_fd()
    }
}

impl AsFd for File {
    fn as_fd(&self) -> BorrowedFd<'_> {
        self.owned.as_fd()
    }
}

impl IntoFd for File {
    fn into_fd(self) -> OwnedFd {
        self.owned
    }
}

impl FromFd for File {
    fn from_fd(owned: OwnedFd) -> Self {
        Self { owned }
    }
}

impl FilelikeViewType for File {}

impl SocketlikeViewType for File {}

/// A type that breaks the promise of a view type: it gives up another
/// descriptor than the one it was built around.
struct Rebinder {
    owned: OwnedFd,
}

impl IntoFd for Rebinder {
    fn into_fd(self) -> OwnedFd {
        OwnedFd::own_raw_fd(self.owned.into_raw_fd() + 1)
    }
}

impl FromFd for Rebinder {
    fn from_fd(owned: OwnedFd) -> Self {
        Self { owned }
    }
}

impl FilelikeViewType for Rebinder {}

impl SocketlikeViewType for Rebinder {}

#[test]
fn view_of_an_owned_fd_as_itself() {
    let owned = OwnedFd::own_raw_fd(5);
    let view = FilelikeView::<OwnedFd>::new(&owned);
    assert_eq!(view.as_raw_fd(), 5);
    assert!(view.release());
    assert_eq!(owned.into_raw_fd(), 5);
}

#[test]
fn view_raw_keeps_the_descriptor() {
    let view = FilelikeView::<File>::view_raw(17);
    assert_eq!(view.fd(), 17);
    assert!(view.release());
    let view = SocketlikeView::<File>::view_raw(18);
    assert_eq!(view.fd(), 18);
    assert!(view.release());
    let view = FilelikeView::<File>::view_raw(i32::MIN);
    assert_eq!(view.fd(), i32::MIN);
    assert!(view.release());
}

#[test]
fn view_lends_the_methods_of_the_target() {
    let table = Rc::new(RefCell::new(Table::default()));
    let fd = table.borrow_mut().open();
    let owned = OwnedFd::own_raw_fd(fd);
    {
        let view = owned.as_filelike_view::<File>();
        assert_eq!(view.write(&table, b"seen through a view"), 19);
        assert!(view.release());
    }
    assert_eq!(table.borrow().files[&fd], b"seen through a view");
    assert!(table.borrow().closes.is_empty());
    assert_eq!(table.borrow_mut().close(owned), 0);
    assert_eq!(table.borrow().closes, vec![fd]);
}

#[test]
fn second_view_is_as_good_as_the_first() {
    let table = Rc::new(RefCell::new(Table::default()));
    let fd = table.borrow_mut().open();
    let owned = OwnedFd::own_raw_fd(fd);

    let first = owned.as_filelike_view::<File>();
    assert_eq!(first.fd(), fd);
    assert_eq!(first.write(&table, b"one"), 3);
    assert!(first.release());

    let second = owned.as_filelike_view::<File>();
    assert_eq!(second.fd(), fd);
    assert_eq!(second.write(&table, b"two"), 3);
    assert!(second.release());

    let third = owned.as_socketlike_view::<File>();
    assert_eq!(third.fd(), fd);
    assert!(third.release());

    assert_eq!(table.borrow().files[&fd], b"onetwo");
    assert!(table.borrow().closes.is_empty());
    assert_eq!(owned.as_raw_fd(), fd);
}

#[test]
fn a_target_that_rebinds_is_found_out() {
    let owned = OwnedFd::own_raw_fd(5);
    let view = owned.as_filelike_view::<Rebinder>();
    assert!(!view.release());
    let view = owned.as_socketlike_view::<Rebinder>();
    assert!(!view.release());
    assert_eq!(owned.into_raw_fd(), 5);
}

#[test]
fn a_target_swapped_through_the_view_is_found_out() {
    let owned = OwnedFd::own_raw_fd(5);
    let mut view = owned.as_filelike_view::<File>();
    *view = File::from_fd(OwnedFd::own_raw_fd(6));
    assert!(!view.release());

    let mut view = owned.as_filelike_view::<File>();
    *view = File::from_fd(OwnedFd::own_raw_fd(5));
    assert!(view.release());
}

#[test]
fn views_of_handles_and_sockets() {
    let handle = OwnedHandle::from_raw_handle(0x40);
    let view = HandleView::<OwnedHandle>::new(&handle);
    assert_eq!(view.as_raw_handle(), 0x40);
    assert!(view.release());
    let view = HandleView::<OwnedHandle>::view_raw(usize::MAX);
    assert_eq!(view.as_raw_handle(), usize::MAX);
    assert!(view.release());
    assert_eq!(handle.into_raw_handle(), 0x40);

    let socket = OwnedSocket::from_raw_socket(0x80);
    let view = SocketView::<OwnedSocket>::new(&socket);
    assert_eq!(view.as_raw_socket(), 0x80);
    assert!(view.release());
    let view = SocketView::<OwnedSocket>::view_raw(0);
    assert_eq!(view.as_raw_socket(), 0);
    assert!(view.release());
    assert_eq!(socket.into_raw_socket(), 0x80);
}

#[test]
fn write_convert_write_convert_close() {
    let table = Rc::new(RefCell::new(Table::default()));

    let raw = table.borrow_mut().open();
    assert_ne!(raw, -1);
    let fd = OwnedFd::own_raw_fd(raw);

    let first = b"hello, world\n";
    assert_eq!(table.borrow_mut().write(fd.as_fd(), first), 13);

    let file = File::from_fd(fd);
    let second = b"sup?\n";
    assert_eq!(file.write(&table, second), 5);

    let fd = file.into_fd();
    assert_eq!(table.borrow_mut().close(fd), 0);

    assert_eq!(table.borrow().files[&raw], b"hello, world\nsup?\n");
    assert_eq!(table.borrow().closes, vec![raw]);
}
