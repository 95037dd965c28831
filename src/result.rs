//! The uniform adapter from native outcomes to `Result`.

use vstd::prelude::*;

use crate::errors::{result_of, translate, HsError};
use crate::ffi::hs_error_t;

verus! {

/// A value that stands for the outcome of a native call.
pub trait AsResult: Sized {
    type Output;
    type Error: core::fmt::Debug;

    /// The outcome this value stands for.
    spec fn outcome(self) -> Result<Self::Output, Self::Error>;

    /// The outcome as a `Result`.
    fn ok(self) -> (r: Result<Self::Output, Self::Error>)
        ensures
            r == self.outcome(),
    ;

    /// Applies `op` to a successful outcome; an error passes through.
    fn map<U, F: FnOnce(Self::Output) -> U>(self, op: F) -> (r: Result<U, Self::Error>)
        requires
            self.outcome() is Ok ==> op.requires((self.outcome()->Ok_0,)),
        ensures
            self.outcome() is Ok ==> r is Ok && op.ensures((self.outcome()->Ok_0,), r->Ok_0),
            self.outcome() is Err ==> r == Err::<U, Self::Error>(self.outcome()->Err_0),
    {
        match self.ok() {
            Ok(o) => Ok(op(o)),
            Err(e) => Err(e),
        }
    }

    /// Chains `op` after a successful outcome; an error passes through.
    fn and_then<U, F: FnOnce(Self::Output) -> Result<U, Self::Error>>(self, op: F) -> (r: Result<
        U,
        Self::Error,
    >)
        requires
            self.outcome() is Ok ==> op.requires((self.outcome()->Ok_0,)),
        ensures
            self.outcome() is Ok ==> op.ensures((self.outcome()->Ok_0,), r),
            self.outcome() is Err ==> r == Err::<U, Self::Error>(self.outcome()->Err_0),
    {
        match self.ok() {
            Ok(o) => op(o),
            Err(e) => Err(e),
        }
    }

    /// The output of a successful outcome.
    fn expect(self, msg: &str) -> (r: Self::Output)
        requires
            self.outcome() is Ok,
        ensures
            r == self.outcome()->Ok_0,
    {
        self.ok().expect(msg)
    }
}

impl AsResult for hs_error_t {
    type Output = ();
    type Error = HsError;

    open spec fn outcome(self) -> Result<(), HsError> {
        result_of(self)
    }

    fn ok(self) -> (r: Result<(), HsError>) {
        translate(self)
    }
}

} // verus!
