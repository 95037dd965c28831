use hyperscan::errors::HsError;
use hyperscan::ffi::{
    PlatformInfo, HS_ARCH_ERROR, HS_CPU_FEATURES_AVX2, HS_CPU_FEATURES_AVX512, HS_SUCCESS,
    HS_TUNE_FAMILY_GLM, HS_TUNE_FAMILY_HSW,
};
use hyperscan::platform::{CpuFeatures, Platform, Tune};

#[test]
pub fn test_platform() {
    assert!(Platform::is_valid(HS_SUCCESS).is_ok())
}

#[test]
fn invalid_platform_reports_arch_error() {
    assert_eq!(Platform::is_valid(HS_ARCH_ERROR), Err(HsError::ArchError));
}

#[test]
fn platform_from_params_reads_back() {
    let features = CpuFeatures::avx2().union(CpuFeatures::avx512());
    let p = Platform::new(Tune::Haswell, features);
    assert_eq!(p.tune(), Some(Tune::Haswell));
    assert_eq!(p.cpu_features(), features);
    let info = p.as_info();
    assert_eq!(info.tune, HS_TUNE_FAMILY_HSW);
    assert_eq!(info.cpu_features, 12);
    assert_eq!(info.reserved1, 0);
    assert_eq!(info.reserved2, 0);
}

#[test]
fn platform_from_params_every_tune() {
    let all = [
        Tune::Generic,
        Tune::SandyBridge,
        Tune::IvyBridge,
        Tune::Haswell,
        Tune::Silvermont,
        Tune::Broadwell,
        Tune::Skylake,
        Tune::SkylakeServer,
        Tune::Goldmont,
    ];
    for (i, t) in all.iter().enumerate() {
        assert_eq!(t.to_raw(), i as u32);
        assert_eq!(Tune::from_raw(i as u32), Some(*t));
        let p = Platform::new(*t, CpuFeatures::empty());
        assert_eq!(p.tune(), Some(*t));
        assert!(p.cpu_features().is_empty());
    }
    assert_eq!(Tune::from_raw(9), None);
}

#[test]
fn host_keeps_the_probed_record() {
    let info = PlatformInfo {
        tune: HS_TUNE_FAMILY_GLM,
        cpu_features: HS_CPU_FEATURES_AVX2 | 16,
        reserved1: 0,
        reserved2: 0,
    };
    let p = Platform::host(HS_SUCCESS, info).unwrap();
    assert_eq!(p.as_info(), info);
    assert_eq!(p.tune(), Some(Tune::Goldmont));
    assert_eq!(p.cpu_features().bits(), HS_CPU_FEATURES_AVX2);
}

#[test]
fn host_fails_on_a_failed_probe() {
    let info = PlatformInfo { tune: 0, cpu_features: 0, reserved1: 0, reserved2: 0 };
    assert_eq!(Platform::host(HS_ARCH_ERROR, info).unwrap_err(), HsError::ArchError);
    assert_eq!(Platform::host(-77, info).unwrap_err(), HsError::Code(-77));
}

#[test]
fn cpu_features_set_operations() {
    let avx2 = CpuFeatures::avx2();
    let avx512 = CpuFeatures::avx512();
    assert_eq!(avx2.bits(), HS_CPU_FEATURES_AVX2);
    assert_eq!(avx512.bits(), HS_CPU_FEATURES_AVX512);
    assert_eq!(CpuFeatures::all().bits(), 12);
    assert_eq!(CpuFeatures::default().bits(), 0);
    let both = avx2.union(avx512);
    assert!(both.contains(avx2));
    assert!(both.contains(avx512));
    assert!(!avx2.contains(avx512));
    assert_eq!(both.intersection(avx2), avx2);
    assert_eq!(both.difference(avx2), avx512);
    let mut f = CpuFeatures::empty();
    f.insert(avx512);
    assert_eq!(f, avx512);
    f.insert(avx2);
    assert_eq!(f, both);
    f.remove(avx512);
    assert_eq!(f, avx2);
}

#[test]
fn cpu_features_from_bits() {
    assert_eq!(CpuFeatures::from_bits(4), Some(CpuFeatures::avx2()));
    assert_eq!(CpuFeatures::from_bits(12).map(|f| f.bits()), Some(12));
    assert_eq!(CpuFeatures::from_bits(1), None);
    assert_eq!(CpuFeatures::from_bits(16 | 4), None);
    assert_eq!(CpuFeatures::from_bits_truncate(16 | 8 | 1).bits(), 8);
}
