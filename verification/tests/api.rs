use io_lifetimes::unix::portability::{
    AsFilelike, AsSocketlike, FromFilelike, FromSocketlike, IntoFilelike, IntoSocketlike,
};
use io_lifetimes::{AsFd, BorrowedFd, FromFd, IntoFd, OwnedFd};

/// A wrapper around a file descriptor, as a file type of some library would
/// be: it lends, gives up and takes over its descriptor.
struct File {
    filelike: OwnedFd,
}

impl AsFd for File {
    fn as_fd(&self) -> BorrowedFd<'_> {
        self.filelike.as_fd()
    }
}

impl IntoFd for File {
    fn into_fd(self) -> OwnedFd {
        self.filelike
    }
}

impl FromFd for File {
    fn from_fd(filelike: OwnedFd) -> Self {
        Self { filelike }
    }
}

impl io_lifetimes::unix::views::FilelikeViewType for File {}

/// The same for a stream socket.
struct TcpStream {
    socketlike: OwnedFd,
}

impl AsFd for TcpStream {
    fn as_fd(&self) -> BorrowedFd<'_> {
        self.socketlike.as_fd()
    }
}

impl IntoFd for TcpStream {
    fn into_fd(self) -> OwnedFd {
        self.socketlike
    }
}

impl FromFd for TcpStream {
    fn from_fd(socketlike: OwnedFd) -> Self {
        Self { socketlike }
    }
}

impl io_lifetimes::unix::views::SocketlikeViewType for TcpStream {}

struct Tester {}
impl Tester {
    fn use_file<Filelike: AsFilelike>(filelike: Filelike) -> i32 {
        let filelike = filelike.as_filelike();
        let view = filelike.as_filelike_view::<File>();
        assert!(view.release());
        let shown = format!("{:?}", filelike);
        assert!(shown.starts_with("BorrowedFd"));
        filelike.as_raw_fd()
    }

    fn use_socket<Socketlike: AsSocketlike>(socketlike: Socketlike) -> i32 {
        let socketlike = socketlike.as_socketlike();
        let view = socketlike.as_socketlike_view::<TcpStream>();
        assert!(view.release());
        let shown = format!("{:?}", socketlike);
        assert!(shown.starts_with("BorrowedFd"));
        socketlike.as_raw_fd()
    }

    fn from_file<Filelike: IntoFilelike>(filelike: Filelike) -> i32 {
        let filelike = filelike.into_filelike();
        let view = filelike.as_filelike_view::<File>();
        assert!(view.release());
        let shown = format!("{:?}", &filelike);
        assert!(shown.starts_with("OwnedFd"));
        File::from_filelike(filelike).into_fd().into_raw_fd()
    }

    fn from_socket<Socketlike: IntoSocketlike>(socketlike: Socketlike) -> i32 {
        let socketlike = socketlike.into_socketlike();
        let view = socketlike.as_socketlike_view::<TcpStream>();
        assert!(view.release());
        let shown = format!("{:?}", &socketlike);
        assert!(shown.starts_with("OwnedFd"));
        TcpStream::from_socketlike(socketlike)
            .into_fd()
            .into_raw_fd()
    }

    fn from_into_file<Filelike: IntoFilelike>(filelike: Filelike) -> i32 {
        File::from_into_filelike(filelike).into_fd().into_raw_fd()
    }

    fn from_into_socket<Socketlike: IntoSocketlike>(socketlike: Socketlike) -> i32 {
        TcpStream::from_into_socketlike(socketlike)
            .into_fd()
            .into_raw_fd()
    }
}

fn open_file(fd: i32) -> File {
    File::from_fd(OwnedFd::own_raw_fd(fd))
}

fn bind_listener(fd: i32) -> TcpStream {
    TcpStream::from_fd(OwnedFd::own_raw_fd(fd))
}

#[test]
fn test_api() {
    assert_eq!(Tester::use_file(open_file(3).as_filelike()), 3);
    assert_eq!(Tester::use_socket(bind_listener(4).as_socketlike()), 4);

    assert_eq!(Tester::from_file(open_file(5).into_filelike()), 5);
    assert_eq!(Tester::from_socket(bind_listener(6).into_socketlike()), 6);

    assert_eq!(Tester::from_into_file(open_file(7).into_filelike()), 7);
    assert_eq!(
        Tester::from_into_socket(bind_listener(8).into_socketlike()),
        8
    );
}

#[test]
fn owning_wrapper_plays_every_role() {
    let file = open_file(9);
    let thing = File::from_into_fd(file);
    assert_eq!(thing.as_fd().as_raw_fd(), 9);
    let owned: OwnedFd = thing.into_fd();
    assert_eq!(owned.as_raw_fd(), 9);

    let thing = File::from_into_filelike(owned);
    assert_eq!(thing.as_filelike().as_raw_fd(), 9);
    assert_eq!(thing.into_filelike().into_raw_fd(), 9);
}
