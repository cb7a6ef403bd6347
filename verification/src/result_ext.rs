//! An extension trait that upgrades an outcome to the library's
//! [`Result`](crate::Result) at a call site where no implicit conversion is
//! already triggered.

use vstd::prelude::*;

use crate::{Error, IntoError};

verus! {

/// An extension that maps an outcome's failure branch into the
/// erasure-typed [`Error`].
pub trait ResultExt: Sized {
    type Output;

    fn helpful(self) -> Self::Output;
}

impl<T, E: IntoError> ResultExt for core::result::Result<T, E> {
    type Output = core::result::Result<T, Error>;

    /// Maps only the failure branch through [`IntoError`]; a success value is
    /// handed back untouched, and a failure that is already an `Error` comes
    /// back unchanged.
    fn helpful(self) -> (r: core::result::Result<T, Error>)
        ensures
            self is Ok <==> r is Ok,
            self is Ok ==> r->Ok_0 == self->Ok_0,
            self is Err ==> call_ensures(E::into_error, (self->Err_0,), r->Err_0),
    {
        match self {
            Ok(value) => Ok(value),
            Err(error) => Err(error.into_error()),
        }
    }
}

} // verus!
