//! Target platforms: tuning families, CPU feature sets, and the platform
//! descriptor handed to the pattern compiler.

use vstd::prelude::*;

use crate::errors::{result_of, translate, HsError};
use crate::ffi::{
    hs_error_t, PlatformInfo, HS_CPU_FEATURES_AVX2, HS_CPU_FEATURES_AVX512, HS_SUCCESS,
    HS_TUNE_FAMILY_BDW, HS_TUNE_FAMILY_GENERIC, HS_TUNE_FAMILY_GLM, HS_TUNE_FAMILY_HSW,
    HS_TUNE_FAMILY_IVB, HS_TUNE_FAMILY_SKL, HS_TUNE_FAMILY_SKX, HS_TUNE_FAMILY_SLM,
    HS_TUNE_FAMILY_SNB,
};

verus! {

/// Tuning Parameter
#[derive(Clone, Copy, Debug, PartialEq, Eq, Structural)]
pub enum Tune {
    /// Generic
    Generic,
    /// Intel(R) microarchitecture code name Sandy Bridge
    SandyBridge,
    /// Intel(R) microarchitecture code name Ivy Bridge
    IvyBridge,
    /// Intel(R) microarchitecture code name Haswell
    Haswell,
    /// Intel(R) microarchitecture code name Silvermont
    Silvermont,
    /// Intel(R) microarchitecture code name Broadwell
    Broadwell,
    /// Intel(R) microarchitecture code name Skylake
    Skylake,
    /// Intel(R) microarchitecture code name Skylake Server
    SkylakeServer,
    /// Intel(R) microarchitecture code name Goldmont
    Goldmont,
}

impl Tune {
    /// The engine's code for this tuning family.
    pub open spec fn code(self) -> u32 {
        match self {
            Tune::Generic => HS_TUNE_FAMILY_GENERIC,
            Tune::SandyBridge => HS_TUNE_FAMILY_SNB,
            Tune::IvyBridge => HS_TUNE_FAMILY_IVB,
            Tune::Haswell => HS_TUNE_FAMILY_HSW,
            Tune::Silvermont => HS_TUNE_FAMILY_SLM,
            Tune::Broadwell => HS_TUNE_FAMILY_BDW,
            Tune::Skylake => HS_TUNE_FAMILY_SKL,
            Tune::SkylakeServer => HS_TUNE_FAMILY_SKX,
            Tune::Goldmont => HS_TUNE_FAMILY_GLM,
        }
    }

    /// The tuning family whose code is `code`, if there is one.
    pub open spec fn of_code(code: u32) -> Option<Tune> {
        if code == HS_TUNE_FAMILY_GENERIC {
            Some(Tune::Generic)
        } else if code == HS_TUNE_FAMILY_SNB {
            Some(Tune::SandyBridge)
        } else if code == HS_TUNE_FAMILY_IVB {
            Some(Tune::IvyBridge)
        } else if code == HS_TUNE_FAMILY_HSW {
            Some(Tune::Haswell)
        } else if code == HS_TUNE_FAMILY_SLM {
            Some(Tune::Silvermont)
        } else if code == HS_TUNE_FAMILY_BDW {
            Some(Tune::Broadwell)
        } else if code == HS_TUNE_FAMILY_SKL {
            Some(Tune::Skylake)
        } else if code == HS_TUNE_FAMILY_SKX {
            Some(Tune::SkylakeServer)
        } else if code == HS_TUNE_FAMILY_GLM {
            Some(Tune::Goldmont)
        } else {
            None
        }
    }

    /// The engine's code for this tuning family.
    pub fn to_raw(self) -> (r: u32)
        ensures
            r == self.code(),
    {
        match self {
            Tune::Generic => HS_TUNE_FAMILY_GENERIC,
            Tune::SandyBridge => HS_TUNE_FAMILY_SNB,
            Tune::IvyBridge => HS_TUNE_FAMILY_IVB,
            Tune::Haswell => HS_TUNE_FAMILY_HSW,
            Tune::Silvermont => HS_TUNE_FAMILY_SLM,
            Tune::Broadwell => HS_TUNE_FAMILY_BDW,
            Tune::Skylake => HS_TUNE_FAMILY_SKL,
            Tune::SkylakeServer => HS_TUNE_FAMILY_SKX,
            Tune::Goldmont => HS_TUNE_FAMILY_GLM,
        }
    }

    /// The tuning family whose code is `code`; `None` for a code no family has.
    pub fn from_raw(code: u32) -> (r: Option<Tune>)
        ensures
            r == Tune::of_code(code),
    {
        if code == HS_TUNE_FAMILY_GENERIC {
            Some(Tune::Generic)
        } else if code == HS_TUNE_FAMILY_SNB {
            Some(Tune::SandyBridge)
        } else if code == HS_TUNE_FAMILY_IVB {
            Some(Tune::IvyBridge)
        } else if code == HS_TUNE_FAMILY_HSW {
            Some(Tune::Haswell)
        } else if code == HS_TUNE_FAMILY_SLM {
            Some(Tune::Silvermont)
        } else if code == HS_TUNE_FAMILY_BDW {
            Some(Tune::Broadwell)
        } else if code == HS_TUNE_FAMILY_SKL {
            Some(Tune::Skylake)
        } else if code == HS_TUNE_FAMILY_SKX {
            Some(Tune::SkylakeServer)
        } else if code == HS_TUNE_FAMILY_GLM {
            Some(Tune::Goldmont)
        } else {
            None
        }
    }
}

/// Reading a tuning family back from its code gives the family itself, and
/// a code that reads back as a family is that family's code.
pub proof fn lemma_tune_round_trip(t: Tune, code: u32)
    ensures
        Tune::of_code(t.code()) == Some(t),
        Tune::of_code(code) == Some(t) ==> t.code() == code,
{
}


/// The feature bits this library names.
pub const KNOWN_CPU_FEATURES: u64 = HS_CPU_FEATURES_AVX2 | HS_CPU_FEATURES_AVX512;

/// CPU feature support flags: a set of the named feature bits, held exactly
/// as the engine's ABI holds it.
#[derive(Clone, Copy, Debug, PartialEq, Eq, Structural)]
pub struct CpuFeatures {
    bits: u64,
}

impl View for CpuFeatures {
    type V = u64;

    closed spec fn view(&self) -> u64 {
        self.bits
    }
}

/// The mask of named feature bits, as a number.
proof fn lemma_known_mask()
    ensures
        KNOWN_CPU_FEATURES == 12u64,
{
    assert(4u64 | 8u64 == 12u64) by (bit_vector);
}

/// Whether `bits` holds named feature bits only.
pub open spec fn known_bits(bits: u64) -> bool {
    bits & !KNOWN_CPU_FEATURES == 0
}

impl CpuFeatures {
    #[verifier::type_invariant]
    closed spec fn inv(self) -> bool {
        known_bits(self.bits)
    }

    /// Intel(R) Advanced Vector Extensions 2 (Intel(R) AVX2)
    pub fn avx2() -> (r: CpuFeatures)
        ensures
            r@ == HS_CPU_FEATURES_AVX2,
    {
        proof {
            lemma_known_mask();
            assert(4u64 & !12u64 == 0) by (bit_vector);
        }
        CpuFeatures { bits: HS_CPU_FEATURES_AVX2 }
    }

    /// Intel(R) Advanced Vector Extensions 512 (Intel(R) AVX512)
    pub fn avx512() -> (r: CpuFeatures)
        ensures
            r@ == HS_CPU_FEATURES_AVX512,
    {
        proof {
            lemma_known_mask();
            assert(8u64 & !12u64 == 0) by (bit_vector);
        }
        CpuFeatures { bits: HS_CPU_FEATURES_AVX512 }
    }

    /// The empty set.
    pub fn empty() -> (r: CpuFeatures)
        ensures
            r@ == 0,
    {
        proof {
            lemma_known_mask();
            assert(0u64 & !12u64 == 0) by (bit_vector);
        }
        CpuFeatures { bits: 0 }
    }

    /// Every named feature.
    pub fn all() -> (r: CpuFeatures)
        ensures
            r@ == KNOWN_CPU_FEATURES,
    {
        proof {
            lemma_known_mask();
            assert(12u64 & !12u64 == 0) by (bit_vector);
        }
        CpuFeatures { bits: KNOWN_CPU_FEATURES }
    }

    /// The raw bits, as the ABI holds them.
    pub fn bits(&self) -> (r: u64)
        ensures
            r == self@,
            known_bits(r),
    {
        proof {
            use_type_invariant(self);
        }
        self.bits
    }

    /// The set whose bits are `bits`; `None` when `bits` holds a bit that
    /// names no feature.
    pub fn from_bits(bits: u64) -> (r: Option<CpuFeatures>)
        ensures
            r is Some <==> known_bits(bits),
            r is Some ==> r->Some_0@ == bits,
    {
        proof {
            lemma_known_mask();
        }
        if bits & !KNOWN_CPU_FEATURES == 0 {
            Some(CpuFeatures { bits })
        } else {
            None
        }
    }

    /// The set of the named features among `bits`; other bits are dropped.
    pub fn from_bits_truncate(bits: u64) -> (r: CpuFeatures)
        ensures
            r@ == bits & KNOWN_CPU_FEATURES,
    {
        proof {
            lemma_known_mask();
            assert((bits & 12u64) & !12u64 == 0) by (bit_vector);
        }
        CpuFeatures { bits: bits & KNOWN_CPU_FEATURES }
    }

    /// Whether the set is empty.
    pub fn is_empty(&self) -> (r: bool)
        ensures
            r == (self@ == 0),
    {
        self.bits == 0
    }

    /// Whether every feature of `other` is in this set.
    pub fn contains(&self, other: CpuFeatures) -> (r: bool)
        ensures
            r == (self@ & other@ == other@),
    {
        self.bits & other.bits == other.bits
    }

    /// The features in either set.
    pub fn union(self, other: CpuFeatures) -> (r: CpuFeatures)
        ensures
            r@ == self@ | other@,
    {
        proof {
            use_type_invariant(&self);
            use_type_invariant(&other);
            lemma_known_mask();
            let (a, b) = (self.bits, other.bits);
            assert(a & !12u64 == 0 && b & !12u64 == 0 ==> (a | b) & !12u64 == 0) by (bit_vector);
        }
        CpuFeatures { bits: self.bits | other.bits }
    }

    /// The features in both sets.
    pub fn intersection(self, other: CpuFeatures) -> (r: CpuFeatures)
        ensures
            r@ == self@ & other@,
    {
        proof {
            use_type_invariant(&self);
            lemma_known_mask();
            let (a, b) = (self.bits, other.bits);
            assert(a & !12u64 == 0 ==> (a & b) & !12u64 == 0) by (bit_vector);
        }
        CpuFeatures { bits: self.bits & other.bits }
    }

    /// The features of this set that are not in `other`.
    pub fn difference(self, other: CpuFeatures) -> (r: CpuFeatures)
        ensures
            r@ == self@ & !other@,
    {
        proof {
            use_type_invariant(&self);
            lemma_known_mask();
            let (a, b) = (self.bits, other.bits);
            assert(a & !12u64 == 0 ==> (a & !b) & !12u64 == 0) by (bit_vector);
        }
        CpuFeatures { bits: self.bits & !other.bits }
    }

    /// Adds the features of `other`.
    pub fn insert(&mut self, other: CpuFeatures)
        ensures
            final(self)@ == old(self)@ | other@,
    {
        *self = self.union(other);
    }

    /// Removes the features of `other`.
    pub fn remove(&mut self, other: CpuFeatures)
        ensures
            final(self)@ == old(self)@ & !other@,
    {
        *self = self.difference(other);
    }
}

impl Default for CpuFeatures {
    fn default() -> (r: CpuFeatures)
        ensures
            r@ == 0,
    {
        CpuFeatures::empty()
    }
}

/// A type containing information on the target platform which may
/// optionally be provided to the compile calls. It owns its record: the
/// record is released once, when the owner goes out of scope, and only a
/// copy is ever handed across the engine boundary.
#[derive(Debug)]
pub struct Platform {
    info: PlatformInfo,
}

impl View for Platform {
    type V = PlatformInfo;

    closed spec fn view(&self) -> PlatformInfo {
        self.info
    }
}

/// The record that explicit parameters describe.
pub open spec fn params_info(tune: Tune, cpu_features: u64) -> PlatformInfo {
    PlatformInfo { tune: tune.code(), cpu_features, reserved1: 0, reserved2: 0 }
}

impl Platform {
    /// Tests the current system architecture, given the status the engine's
    /// platform check returned.
    pub fn is_valid(status: hs_error_t) -> (r: Result<(), HsError>)
        ensures
            r == result_of(status),
    {
        translate(status)
    }

    /// The platform of the current host, given the status of the engine's
    /// probe and the record it filled in. No platform comes out of a failed
    /// probe.
    pub fn host(status: hs_error_t, populated: PlatformInfo) -> (r: Result<Platform, HsError>)
        ensures
            r is Ok <==> status == HS_SUCCESS,
            r is Ok ==> r->Ok_0@ == populated,
            r is Err ==> result_of(status) == Err::<(), HsError>(r->Err_0),
    {
        match translate(status) {
            Ok(()) => Ok(Platform { info: populated }),
            Err(e) => Err(e),
        }
    }

    /// Constructs a target platform which may be used to guide the
    /// optimisation process of the compile.
    pub fn new(tune: Tune, cpu_features: CpuFeatures) -> (r: Platform)
        ensures
            r@ == params_info(tune, cpu_features@),
    {
        Platform {
            info: PlatformInfo {
                tune: tune.to_raw(),
                cpu_features: cpu_features.bits(),
                reserved1: 0,
                reserved2: 0,
            },
        }
    }

    /// The tuning family, if the record names one.
    pub fn tune(&self) -> (r: Option<Tune>)
        ensures
            r == Tune::of_code(self@.tune),
    {
        Tune::from_raw(self.info.tune)
    }

    /// The named CPU features the record holds.
    pub fn cpu_features(&self) -> (r: CpuFeatures)
        ensures
            r@ == self@.cpu_features & KNOWN_CPU_FEATURES,
    {
        CpuFeatures::from_bits_truncate(self.info.cpu_features)
    }

    /// A copy of the record, to pass to the engine.
    pub fn as_info(&self) -> (r: PlatformInfo)
        ensures
            r == self@,
    {
        self.info
    }
}

/// A platform built from explicit parameters reads back the same tuning
/// family and the same feature set.
pub proof fn lemma_platform_round_trip(tune: Tune, cpu_features: u64)
    requires
        known_bits(cpu_features),
    ensures
        Tune::of_code(params_info(tune, cpu_features).tune) == Some(tune),
        params_info(tune, cpu_features).cpu_features & KNOWN_CPU_FEATURES == cpu_features,
{
    lemma_known_mask();
    assert(cpu_features & !12u64 == 0 ==> cpu_features & 12u64 == cpu_features) by (bit_vector);
}

} // verus!
