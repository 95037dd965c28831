//! The error taxonomy and the translation of native status codes into it.

use vstd::prelude::*;

use crate::ffi::{
    hs_error_t, HS_ARCH_ERROR, HS_BAD_ALIGN, HS_BAD_ALLOC, HS_COMPILER_ERROR,
    HS_DB_MODE_ERROR, HS_DB_PLATFORM_ERROR, HS_DB_VERSION_ERROR, HS_INSUFFICIENT_SPACE,
    HS_INVALID, HS_NOMEM, HS_SCAN_TERMINATED, HS_SCRATCH_IN_USE, HS_SUCCESS,
    HS_UNKNOWN_ERROR,
};

verus! {

/// The detail the pattern compiler reports with a failed compile: a
/// diagnostic message and the index of the offending pattern, or a negative
/// index when the failure is not attributable to a single pattern.
#[derive(Clone, Debug)]
pub struct CompileError {
    pub message: String,
    pub expression: i32,
}

impl CompileError {
    /// The zero-based index of the pattern that failed, if one did.
    pub fn pattern_index(&self) -> (r: Option<usize>)
        ensures
            r == (if self.expression >= 0 {
                Some(self.expression as usize)
            } else {
                None
            }),
    {
        if self.expression >= 0 {
            Some(self.expression as usize)
        } else {
            None
        }
    }
}

impl PartialEq for CompileError {
    fn eq(&self, other: &CompileError) -> (r: bool)
        ensures
            r == (self.message@ == other.message@ && self.expression == other.expression),
    {
        self.expression == other.expression && self.message == other.message
    }
}

impl vstd::std_specs::cmp::PartialEqSpecImpl for CompileError {
    open spec fn obeys_eq_spec() -> bool {
        true
    }

    open spec fn eq_spec(&self, other: &CompileError) -> bool {
        self.message@ == other.message@ && self.expression == other.expression
    }
}

/// Error codes of the engine.
#[derive(Debug)]
pub enum HsError {
    /// A parameter passed to this function was invalid.
    Invalid,
    /// A memory allocation failed.
    NoMem,
    /// The engine was terminated by callback.
    ScanTerminated,
    /// The pattern compiler failed with more detail.
    CompileError(CompileError),
    /// The given database was built for a different version of the engine.
    DbVersionError,
    /// The given database was built for a different platform (i.e., CPU type).
    DbPlatformError,
    /// The given database was built for a different mode of operation.
    DbModeError,
    /// A parameter passed to this function was not correctly aligned.
    BadAlign,
    /// The memory allocator did not correctly return memory suitably aligned.
    BadAlloc,
    /// The scratch region was already in use.
    ScratchInUse,
    /// Unsupported CPU architecture.
    ArchError,
    /// Provided buffer was too small.
    InsufficientSpace,
    /// Unexpected internal error.
    UnknownError,
    /// Unknown error code.
    Code(hs_error_t),
}

/// Whether two errors are the same: the same variant, with equal payloads
/// (compile-error messages compared as text).
pub open spec fn same_error(a: HsError, b: HsError) -> bool {
    match (a, b) {
        (HsError::CompileError(x), HsError::CompileError(y)) => x.message@ == y.message@
            && x.expression == y.expression,
        _ => a == b,
    }
}

impl PartialEq for HsError {
    fn eq(&self, other: &HsError) -> (r: bool)
        ensures
            r == same_error(*self, *other),
    {
        match (self, other) {
            (HsError::Invalid, HsError::Invalid) => true,
            (HsError::NoMem, HsError::NoMem) => true,
            (HsError::ScanTerminated, HsError::ScanTerminated) => true,
            (HsError::CompileError(x), HsError::CompileError(y)) => x.eq(y),
            (HsError::DbVersionError, HsError::DbVersionError) => true,
            (HsError::DbPlatformError, HsError::DbPlatformError) => true,
            (HsError::DbModeError, HsError::DbModeError) => true,
            (HsError::BadAlign, HsError::BadAlign) => true,
            (HsError::BadAlloc, HsError::BadAlloc) => true,
            (HsError::ScratchInUse, HsError::ScratchInUse) => true,
            (HsError::ArchError, HsError::ArchError) => true,
            (HsError::InsufficientSpace, HsError::InsufficientSpace) => true,
            (HsError::UnknownError, HsError::UnknownError) => true,
            (HsError::Code(x), HsError::Code(y)) => *x == *y,
            _ => false,
        }
    }
}

impl vstd::std_specs::cmp::PartialEqSpecImpl for HsError {
    open spec fn obeys_eq_spec() -> bool {
        true
    }

    open spec fn eq_spec(&self, other: &HsError) -> bool {
        same_error(*self, *other)
    }
}

/// The error that a non-success status code stands for. The compiler's own
/// code carries no detail on its own and so reads as an internal error; a
/// code outside the known set is kept as it is.
pub open spec fn error_of(code: hs_error_t) -> HsError {
    if code == HS_INVALID {
        HsError::Invalid
    } else if code == HS_NOMEM {
        HsError::NoMem
    } else if code == HS_SCAN_TERMINATED {
        HsError::ScanTerminated
    } else if code == HS_DB_VERSION_ERROR {
        HsError::DbVersionError
    } else if code == HS_DB_PLATFORM_ERROR {
        HsError::DbPlatformError
    } else if code == HS_DB_MODE_ERROR {
        HsError::DbModeError
    } else if code == HS_BAD_ALIGN {
        HsError::BadAlign
    } else if code == HS_BAD_ALLOC {
        HsError::BadAlloc
    } else if code == HS_SCRATCH_IN_USE {
        HsError::ScratchInUse
    } else if code == HS_ARCH_ERROR {
        HsError::ArchError
    } else if code == HS_INSUFFICIENT_SPACE {
        HsError::InsufficientSpace
    } else if code == HS_UNKNOWN_ERROR || code == HS_COMPILER_ERROR {
        HsError::UnknownError
    } else {
        HsError::Code(code)
    }
}

/// What a status code means: success, or the error it stands for.
pub open spec fn result_of(code: hs_error_t) -> Result<(), HsError> {
    if code == HS_SUCCESS {
        Ok(())
    } else {
        Err(error_of(code))
    }
}

/// What a compile call's status means, given the compile-error record the
/// engine produced with it, if any.
pub open spec fn compile_result_of(code: hs_error_t, detail: Option<CompileError>) -> Result<
    (),
    HsError,
> {
    if code == HS_COMPILER_ERROR && detail is Some {
        Err(HsError::CompileError(detail->Some_0))
    } else {
        result_of(code)
    }
}

/// The error that a non-success status code stands for.
fn error_from_code(err: hs_error_t) -> (r: HsError)
    ensures
        r == error_of(err),
{
    if err == HS_INVALID {
        HsError::Invalid
    } else if err == HS_NOMEM {
        HsError::NoMem
    } else if err == HS_SCAN_TERMINATED {
        HsError::ScanTerminated
    } else if err == HS_DB_VERSION_ERROR {
        HsError::DbVersionError
    } else if err == HS_DB_PLATFORM_ERROR {
        HsError::DbPlatformError
    } else if err == HS_DB_MODE_ERROR {
        HsError::DbModeError
    } else if err == HS_BAD_ALIGN {
        HsError::BadAlign
    } else if err == HS_BAD_ALLOC {
        HsError::BadAlloc
    } else if err == HS_SCRATCH_IN_USE {
        HsError::ScratchInUse
    } else if err == HS_ARCH_ERROR {
        HsError::ArchError
    } else if err == HS_INSUFFICIENT_SPACE {
        HsError::InsufficientSpace
    } else if err == HS_UNKNOWN_ERROR || err == HS_COMPILER_ERROR {
        HsError::UnknownError
    } else {
        HsError::Code(err)
    }
}

/// The translation is total and faithful: only the success code means
/// success, each known code has its own variant, and a code outside the known
/// set comes back as it was.
pub proof fn lemma_translation_faithful(code: hs_error_t)
    ensures
        result_of(code) is Ok <==> code == HS_SUCCESS,
        code == HS_INVALID ==> result_of(code) == Err::<(), HsError>(HsError::Invalid),
        code == HS_NOMEM ==> result_of(code) == Err::<(), HsError>(HsError::NoMem),
        code == HS_SCAN_TERMINATED ==> result_of(code) == Err::<(), HsError>(
            HsError::ScanTerminated,
        ),
        code == HS_DB_VERSION_ERROR ==> result_of(code) == Err::<(), HsError>(
            HsError::DbVersionError,
        ),
        code == HS_DB_PLATFORM_ERROR ==> result_of(code) == Err::<(), HsError>(
            HsError::DbPlatformError,
        ),
        code == HS_DB_MODE_ERROR ==> result_of(code) == Err::<(), HsError>(HsError::DbModeError),
        code == HS_BAD_ALIGN ==> result_of(code) == Err::<(), HsError>(HsError::BadAlign),
        code == HS_BAD_ALLOC ==> result_of(code) == Err::<(), HsError>(HsError::BadAlloc),
        code == HS_SCRATCH_IN_USE ==> result_of(code) == Err::<(), HsError>(
            HsError::ScratchInUse,
        ),
        code == HS_ARCH_ERROR ==> result_of(code) == Err::<(), HsError>(HsError::ArchError),
        code == HS_INSUFFICIENT_SPACE ==> result_of(code) == Err::<(), HsError>(
            HsError::InsufficientSpace,
        ),
        code == HS_UNKNOWN_ERROR ==> result_of(code) == Err::<(), HsError>(HsError::UnknownError),
        (code > 0 || code < HS_UNKNOWN_ERROR) ==> result_of(code) == Err::<(), HsError>(
            HsError::Code(code),
        ),
        forall|v: hs_error_t| result_of(code) == Err::<(), HsError>(HsError::Code(v)) ==> v == code,
        !(result_of(code) is Err && result_of(code)->Err_0 is CompileError),
{
}

/// A compile failure that comes with its record reports that record, so the
/// caller learns the message and the index of the pattern that failed.
pub proof fn lemma_compile_failure_attributed(detail: CompileError)
    ensures
        compile_result_of(HS_COMPILER_ERROR, Some(detail)) == Err::<(), HsError>(
            HsError::CompileError(detail),
        ),
        compile_result_of(HS_COMPILER_ERROR, None) == Err::<(), HsError>(HsError::UnknownError),
{
}

impl From<hs_error_t> for HsError {
    fn from(err: hs_error_t) -> (r: HsError) {
        error_from_code(err)
    }
}

impl vstd::std_specs::convert::FromSpecImpl<hs_error_t> for HsError {
    open spec fn obeys_from_spec() -> bool {
        true
    }

    open spec fn from_spec(v: hs_error_t) -> HsError {
        error_of(v)
    }
}

/// Turns a status code into success or the typed error it stands for.
pub fn translate(code: hs_error_t) -> (r: Result<(), HsError>)
    ensures
        r == result_of(code),
{
    if code == HS_SUCCESS {
        Ok(())
    } else {
        Err(error_from_code(code))
    }
}

/// Turns a compile call's status into success or a typed error. A compiler
/// failure yields the compile-error record when the engine produced one, and
/// an internal error when it did not.
pub fn translate_compile(code: hs_error_t, detail: Option<CompileError>) -> (r: Result<
    (),
    HsError,
>)
    ensures
        r == compile_result_of(code, detail),
{
    if code == HS_COMPILER_ERROR {
        match detail {
            Some(d) => Err(HsError::CompileError(d)),
            None => translate(code),
        }
    } else {
        translate(code)
    }
}

} // verus!
