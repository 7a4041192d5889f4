[package]
name = "minimal_compute"
version = "0.1.0"
edition = "2021"
publish = false

[dependencies]
bytemuck = { version = "1", features = ["extern_crate_alloc"] }
futures-intrusive = "0.4"
wgpu = "0.14"
