[package]
name = "cubecl_metal4"
version = "0.1.0"
edition = "2021"
publish = false

[dependencies]
hashbrown = "0.15"
bytemuck = "1"
thiserror = "2"
objc2 = "0.6"
objc2-foundation = "0.3"
objc2-metal = "0.3"
cubecl-common = "0.7"
cubecl-ir = "0.7"
cubecl-core = "0.7"
cubecl = { version = "0.7", default-features = false }
