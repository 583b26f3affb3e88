//! Ownership and borrowing for the identifiers by which an operating system
//! names open resources: file descriptors, handles and sockets.
//!
//! A raw identifier is a number, and a number can be copied, kept after the
//! resource is closed, or closed twice. The types of this crate give each
//! identifier one owner, lend it out for a lifetime, and keep the values
//! that mean "no resource" out of both. On top of them stand the roles by
//! which other types join in, views that lend a borrowed resource in the
//! shape of an owning type, and an advisory lock over a whole file.
//!
//! The crate decides and the host acts. Nothing here calls the operating
//! system: where a resource has to be closed or a lock taken, a function
//! says which call is due, and another takes note of what the call
//! reported. The code that makes the calls, and that ties them to the end
//! of a value's life, lives with the host.
//!
//! Descriptors, handles and sockets are modelled side by side, so that the
//! rules for each can be checked on any machine. `unix` holds what is
//! particular to systems where everything is a descriptor, `windows` what is
//! particular to systems that tell handles from sockets.

pub mod error;
pub mod raw;
pub mod traits;
pub mod types;
pub mod unix;
pub mod windows;

pub use crate::error::Error;
pub use crate::error::ErrorKind;
pub use crate::traits::AsFd;
pub use crate::traits::AsHandle;
pub use crate::traits::AsSocket;
pub use crate::traits::FromFd;
pub use crate::traits::FromHandle;
pub use crate::traits::FromSocket;
pub use crate::traits::IntoFd;
pub use crate::traits::IntoHandle;
pub use crate::traits::IntoSocket;
pub use crate::types::BorrowedFd;
pub use crate::types::BorrowedHandle;
pub use crate::types::BorrowedSocket;
pub use crate::types::HandleOrInvalid;
pub use crate::types::HandleOrNull;
pub use crate::types::OwnedFd;
pub use crate::types::OwnedHandle;
pub use crate::types::OwnedSocket;
