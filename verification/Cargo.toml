[package]
name = "chibiwasm_shim"
version = "0.1.0"
edition = "2021"
publish = false

[dependencies]
serde_json = "=1.0.151"
chrono = "=0.4.45"
nix = { version = "=0.26.4", features = ["process", "signal"] }
libc = "=0.2.190"
libcontainer = "=0.1.0"
containerd-shim-wasm = "=0.2.1"
containerd-shim = "0.5"
oci-spec = "0.5"
