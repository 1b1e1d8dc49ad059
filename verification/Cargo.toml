[package]
name = "mux"
version = "0.1.0"
edition = "2021"
publish = false

[dependencies]
arraydeque = "0.4"
bytes = "0.4"
chrono = "0.4"
dirs = "1"
failure = "0.1"
fern = "0.5"
futures = "0.1"
libc = "0.2"
log = "0.4"
log-panics = "2"
memchr = "2"
structopt = "0.2"
termion = "1.5"
tokio = "0.1"
tokio-async-await = "0.1"
tokio-process = "0.2"
tokio-pty-process = "0.4"
tokio-threadpool = "0.1"
tui = "0.5"
unicode-segmentation = "1"
unicode-width = "0.1"
