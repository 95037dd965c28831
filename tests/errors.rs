use hyperscan::errors::{translate, translate_compile, CompileError, HsError};
use hyperscan::ffi::{
    HS_ARCH_ERROR, HS_BAD_ALIGN, HS_BAD_ALLOC, HS_COMPILER_ERROR, HS_DB_MODE_ERROR,
    HS_DB_PLATFORM_ERROR, HS_DB_VERSION_ERROR, HS_INSUFFICIENT_SPACE, HS_INVALID, HS_NOMEM,
    HS_SCAN_TERMINATED, HS_SCRATCH_IN_USE, HS_SUCCESS, HS_UNKNOWN_ERROR,
};
use hyperscan::result::AsResult;

#[test]
fn translate_success() {
    assert_eq!(translate(HS_SUCCESS), Ok(()));
    assert_eq!(translate(0), Ok(()));
}

#[test]
fn translate_every_known_code() {
    let cases = [
        (HS_INVALID, HsError::Invalid),
        (HS_NOMEM, HsError::NoMem),
        (HS_SCAN_TERMINATED, HsError::ScanTerminated),
        (HS_DB_VERSION_ERROR, HsError::DbVersionError),
        (HS_DB_PLATFORM_ERROR, HsError::DbPlatformError),
        (HS_DB_MODE_ERROR, HsError::DbModeError),
        (HS_BAD_ALIGN, HsError::BadAlign),
        (HS_BAD_ALLOC, HsError::BadAlloc),
        (HS_SCRATCH_IN_USE, HsError::ScratchInUse),
        (HS_ARCH_ERROR, HsError::ArchError),
        (HS_INSUFFICIENT_SPACE, HsError::InsufficientSpace),
        (HS_UNKNOWN_ERROR, HsError::UnknownError),
    ];
    for (code, err) in cases {
        assert_eq!(translate(code), Err(err));
    }
    assert_eq!(HsError::from(-3), HsError::ScanTerminated);
    assert_eq!(HsError::from(-10), HsError::ScratchInUse);
}

#[test]
fn translate_unknown_code_keeps_value() {
    assert_eq!(translate(-14), Err(HsError::Code(-14)));
    assert_eq!(translate(1), Err(HsError::Code(1)));
    assert_eq!(translate(i32::MIN), Err(HsError::Code(i32::MIN)));
    assert_eq!(translate(i32::MAX), Err(HsError::Code(i32::MAX)));
}

#[test]
fn compiler_code_without_detail_is_internal_error() {
    assert_eq!(translate(HS_COMPILER_ERROR), Err(HsError::UnknownError));
    assert_eq!(translate_compile(HS_COMPILER_ERROR, None), Err(HsError::UnknownError));
}

#[test]
fn compiler_code_with_detail_reports_pattern() {
    let detail = CompileError { message: "Missing close parenthesis for group started at index 0.".to_string(), expression: 0 };
    let r = translate_compile(HS_COMPILER_ERROR, Some(detail.clone()));
    assert_eq!(r, Err(HsError::CompileError(detail)));
    match r {
        Err(HsError::CompileError(e)) => {
            assert_eq!(e.pattern_index(), Some(0));
            assert!(!e.message.is_empty());
        }
        _ => panic!("expected a compile error"),
    }
    let detail = CompileError { message: "bad".to_string(), expression: 3 };
    match translate_compile(HS_COMPILER_ERROR, Some(detail)) {
        Err(HsError::CompileError(e)) => assert_eq!(e.pattern_index(), Some(3)),
        _ => panic!("expected a compile error"),
    }
}

#[test]
fn compile_detail_without_pattern() {
    let detail = CompileError { message: "too large".to_string(), expression: -1 };
    assert_eq!(detail.pattern_index(), None);
}

#[test]
fn compile_status_other_than_compiler_error() {
    let detail = CompileError { message: "x".to_string(), expression: 1 };
    assert_eq!(translate_compile(HS_SUCCESS, None), Ok(()));
    assert_eq!(translate_compile(HS_SUCCESS, Some(detail.clone())), Ok(()));
    assert_eq!(translate_compile(HS_NOMEM, Some(detail)), Err(HsError::NoMem));
}

#[test]
fn errors_compare_by_variant_and_payload() {
    let a = HsError::CompileError(CompileError { message: "m".to_string(), expression: 1 });
    let b = HsError::CompileError(CompileError { message: "m".to_string(), expression: 1 });
    let c = HsError::CompileError(CompileError { message: "n".to_string(), expression: 1 });
    assert_eq!(a, b);
    assert_ne!(a, c);
    assert_ne!(HsError::Code(1), HsError::Code(2));
    assert_ne!(HsError::Invalid, HsError::NoMem);
}

#[test]
fn as_result_on_status_codes() {
    assert_eq!(HS_SUCCESS.ok(), Ok(()));
    assert_eq!(HS_NOMEM.ok(), Err(HsError::NoMem));
    assert_eq!(HS_SUCCESS.map(|_| 7u8), Ok(7));
    assert_eq!(HS_BAD_ALIGN.map(|_| 7u8), Err(HsError::BadAlign));
    assert_eq!(HS_SUCCESS.and_then(|_| Err::<u8, HsError>(HsError::ScratchInUse)), Err(HsError::ScratchInUse));
    assert_eq!(HS_SUCCESS.and_then(|_| Ok::<u8, HsError>(1)), Ok(1));
    assert_eq!(HS_INVALID.and_then(|_| Ok::<u8, HsError>(1)), Err(HsError::Invalid));
    HS_SUCCESS.expect("success");
}
