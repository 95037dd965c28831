//! A typed, memory-safe layer over the native regular-expression engine's
//! C interface: status-code translation, platform descriptors and the rules
//! that govern their construction.

pub mod errors;
pub mod ffi;
pub mod platform;
pub mod result;
