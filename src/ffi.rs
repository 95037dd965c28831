//! The plain values of the native engine's ABI: status codes, tuning
//! families and CPU feature bits, and the platform-information record.

use vstd::prelude::*;

verus! {

/// A status code returned by every fallible entry point of the engine.
#[allow(non_camel_case_types)]
pub type hs_error_t = i32;

/// The engine completed normally.
pub const HS_SUCCESS: hs_error_t = 0;
/// A parameter passed to the function was invalid.
pub const HS_INVALID: hs_error_t = -1;
/// A memory allocation failed.
pub const HS_NOMEM: hs_error_t = -2;
/// The engine was terminated by callback.
pub const HS_SCAN_TERMINATED: hs_error_t = -3;
/// The pattern compiler failed; a compile-error record describes why.
pub const HS_COMPILER_ERROR: hs_error_t = -4;
/// The database was built for a different version of the engine.
pub const HS_DB_VERSION_ERROR: hs_error_t = -5;
/// The database was built for a different platform.
pub const HS_DB_PLATFORM_ERROR: hs_error_t = -6;
/// The database was built for a different mode of operation.
pub const HS_DB_MODE_ERROR: hs_error_t = -7;
/// A parameter was not correctly aligned.
pub const HS_BAD_ALIGN: hs_error_t = -8;
/// The memory allocator returned memory that was not suitably aligned.
pub const HS_BAD_ALLOC: hs_error_t = -9;
/// The scratch region was already in use.
pub const HS_SCRATCH_IN_USE: hs_error_t = -10;
/// The CPU architecture is not supported.
pub const HS_ARCH_ERROR: hs_error_t = -11;
/// A provided buffer was too small.
pub const HS_INSUFFICIENT_SPACE: hs_error_t = -12;
/// An unexpected internal error.
pub const HS_UNKNOWN_ERROR: hs_error_t = -13;

/// Generic tuning.
pub const HS_TUNE_FAMILY_GENERIC: u32 = 0;
/// Sandy Bridge tuning.
pub const HS_TUNE_FAMILY_SNB: u32 = 1;
/// Ivy Bridge tuning.
pub const HS_TUNE_FAMILY_IVB: u32 = 2;
/// Haswell tuning.
pub const HS_TUNE_FAMILY_HSW: u32 = 3;
/// Silvermont tuning.
pub const HS_TUNE_FAMILY_SLM: u32 = 4;
/// Broadwell tuning.
pub const HS_TUNE_FAMILY_BDW: u32 = 5;
/// Skylake tuning.
pub const HS_TUNE_FAMILY_SKL: u32 = 6;
/// Skylake Server tuning.
pub const HS_TUNE_FAMILY_SKX: u32 = 7;
/// Goldmont tuning.
pub const HS_TUNE_FAMILY_GLM: u32 = 8;

/// The AVX2 feature bit.
pub const HS_CPU_FEATURES_AVX2: u64 = 4;
/// The AVX512 feature bit.
pub const HS_CPU_FEATURES_AVX512: u64 = 8;

/// The platform-information record exchanged with the engine, field for
/// field (the reserved fields are always zero on the way in).
#[derive(Clone, Copy, Debug, PartialEq, Eq, Structural)]
pub struct PlatformInfo {
    pub tune: u32,
    pub cpu_features: u64,
    pub reserved1: u64,
    pub reserved2: u64,
}

} // verus!
