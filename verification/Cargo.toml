[package]
name = "asgard_manager"
version = "0.1.0"
edition = "2021"
publish = false

[dependencies]
memmap2 = "*"
vmm-sys-util = "*"
kvm-ioctls = "*"
kvm-bindings = "*"
vm-memory = { version = "*", features = ["backend-mmap"] }
tokio = { version = "*", default-features = false, features = ["rt"] }
reqwest = { version = "*", default-features = false, features = ["blocking", "rustls-tls"] }
tempfile = "*"
