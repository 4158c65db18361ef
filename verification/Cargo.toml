[package]
name = "netcorehost"
version = "0.1.0"
edition = "2021"
publish = false

[dependencies]
hostfxr-sys = { version = "=0.15.0", features = ["optional-apis", "undocumented", "enum-map"] }
coreclr-hosting-shared = "=0.1.4"
thiserror = "=2.0.21"
once_cell = "=1.21.4"
parking_lot = "=0.13.0"
which = "=8.0.6"
widestring = "=1.2.1"
fn-ptr = "=0.9.3"
enum-map = "=3.1.0"
destruct-drop = "=0.2.0"
