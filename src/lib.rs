//! Ownership layer for natively allocated objects, with the build-time
//! helpers that describe the native target.

pub mod build_support;
pub mod codec;
pub mod handle;
pub mod heap;
pub mod package_info;
pub mod paint;
pub mod runtime_effect;
