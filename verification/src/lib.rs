//! Verified host-side logic of a Metal 4 compute backend: stride analysis,
//! Metal Shading Language (MSL) source generation, kernel dispatch planning,
//! buffer bookkeeping and launch validation.

pub mod stride;
pub mod text;
pub mod ir;
pub mod kernel;
pub mod msl;
pub mod compiler;
pub mod msl4;
pub mod kernels;
pub mod storage;
pub mod device;
pub mod runtime;
pub mod server;
pub mod softmax;
