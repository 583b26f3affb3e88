[package]
name = "io-lifetimes"
version = "0.1.0"
edition = "2021"
publish = false

[dependencies]
libc = "0.2"
failure = "0.1"
fs-err = "2"
mio = { version = "0.8", features = ["net", "os-ext", "os-poll"] }
tokio = { version = "1", features = ["fs", "io-std", "net", "process"] }
async-std = "1"
winapi = { version = "0.3", features = ["fileapi", "handleapi", "minwindef", "std", "winnt", "winsock2"] }
