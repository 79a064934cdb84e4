[package]
name = "elevation"
version = "0.1.0"
edition = "2021"
publish = false

[dependencies]
libc = "0.2"
sysinfo = "*"
winapi = { version = "0.3", features = ["securitybaseapi", "winnt", "processthreadsapi", "errhandlingapi", "handleapi", "minwindef", "impl-default"] }
