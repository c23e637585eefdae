[package]
name = "arceos_exercises"
version = "0.1.0"
edition = "2021"
publish = false

[dependencies]
axallocator = "0.2.0"
axerrno = "0.2.2"
axfs = "=0.3.0-preview.1"
axhal = { version = "=0.3.0-preview.1", features = ["uspace", "paging"] }
axmm = "=0.3.0-preview.1"
axsync = { version = "=0.3.0-preview.1", features = ["multitask"] }
axtask = { version = "=0.3.0-preview.1", features = ["multitask"] }
bitflags = "2"
memory_addr = "0.4"
