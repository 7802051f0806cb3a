[package]
name = "wgpui"
version = "0.1.0"
edition = "2021"
publish = false

[dependencies]
anyhow = "1"
bincode = { version = "2", features = ["serde"] }
bytemuck = { version = "1", features = ["derive"] }
circular-buffer = "1"
console_error_panic_hook = "0.1"
num_cpus = "1"
parking_lot = "0.12"
serde = { version = "1", features = ["derive"] }
smallvec = "1"
spin = "*"
thiserror = "2"
wasm-bindgen = "0.2"
web-sys = { version = "0.3", features = ["Window", "Performance"] }
wgpu = "*"
winit = { version = "0.30", default-features = false, features = ["rwh_06", "x11"] }
