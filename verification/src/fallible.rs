//! `?`-style early return through the combinator.
//!
//! Probing a fallible value inside a tentative branch splits it into its
//! success payload (the branch goes on) or a *residual* that the branch
//! sends back out through the `Borrowing` side, to be completed into the
//! enclosing function's own fallible type.  [`Try`] performs the split and
//! [`Residual`] the completion, for both `Result` (with error conversion)
//! and `Option`.

use vstd::prelude::*;

verus! {

/// Stand-in for an uninhabited type.  A datatype needs a variant here, but
/// nothing in this crate ever constructs one, and every contract that
/// meets the type requires it absent.  `Result<Never, E>` is then a
/// fallible value whose success case cannot legitimately occur: exactly
/// the residual a failed `Result<T, E>` leaves behind.
pub enum Never {
    Impossible,
}

/// A fallible family that can be probed: `branch` splits a value into its
/// success payload or the residual its failure leaves behind.
pub trait Try<Residual>: Sized {
    type Output;

    /// Whether this value is the success case of its fallible family.
    spec fn is_success(this: Self) -> bool;

    /// The payload carried by a success value.
    spec fn success_value(this: Self) -> Self::Output;

    /// What the residual handed out for a failure value must look like.
    spec fn residual_describes(this: Self, residual: Residual) -> bool;

    fn branch(this: Self) -> (r: Result<Self::Output, Residual>)
        ensures
            Self::is_success(this) ==> r == Ok::<Self::Output, Residual>(
                Self::success_value(this),
            ),
            !Self::is_success(this) ==> (r matches Err(res) && Self::residual_describes(
                this,
                res,
            )),
    ;
}

/// A residual left behind by some failure, completable into any member of
/// the output family it belongs to.
///
/// The trait runs in this direction (from the residual to the completed
/// output) to keep type inference at the use site straightforward.
pub trait Residual<T>: Sized {
    type WithOutput;

    /// Whether this value is a residual that a failure can actually leave.
    spec fn is_residual(this: Self) -> bool;

    /// The failure value of the output family that this residual stands
    /// for.
    spec fn completed(this: Self) -> Self::WithOutput;

    fn with_output(this: Self) -> (r: Self::WithOutput)
        requires
            Self::is_residual(this),
        ensures
            r == Self::completed(this),
    ;
}

impl<T, DstErr, SrcErr> Try<Result<Never, DstErr>> for Result<T, SrcErr> where
    DstErr: From<SrcErr>,
 {
    type Output = T;

    open spec fn is_success(this: Result<T, SrcErr>) -> bool {
        this is Ok
    }

    open spec fn success_value(this: Result<T, SrcErr>) -> T {
        this->Ok_0
    }

    /// The residual of a failed `Result` is `Err` around the converted
    /// error; the conversion is pinned whenever the `From` impl in play
    /// states its own behaviour.
    open spec fn residual_describes(
        this: Result<T, SrcErr>,
        residual: Result<Never, DstErr>,
    ) -> bool {
        residual matches Err(e2) && (<DstErr as vstd::std_specs::convert::FromSpec<
            SrcErr,
        >>::obeys_from_spec() ==> e2 == <DstErr as vstd::std_specs::convert::FromSpec<
            SrcErr,
        >>::from_spec(this->Err_0))
    }

    fn branch(this: Result<T, SrcErr>) -> (r: Result<T, Result<Never, DstErr>>) {
        match this {
            Ok(v) => Ok(v),
            Err(e) => Err(Err(DstErr::from(e))),
        }
    }
}

impl<T, DstErr> Residual<T> for Result<Never, DstErr> {
    type WithOutput = Result<T, DstErr>;

    open spec fn is_residual(this: Result<Never, DstErr>) -> bool {
        this is Err
    }

    open spec fn completed(this: Result<Never, DstErr>) -> Result<T, DstErr> {
        Err(this->Err_0)
    }

    fn with_output(this: Result<Never, DstErr>) -> (r: Result<T, DstErr>) {
        match this {
            Ok(_) => unreached(),
            Err(e) => Err(e),
        }
    }
}

impl<T> Try<Option<Never>> for Option<T> {
    type Output = T;

    open spec fn is_success(this: Option<T>) -> bool {
        this is Some
    }

    open spec fn success_value(this: Option<T>) -> T {
        this->0
    }

    open spec fn residual_describes(this: Option<T>, residual: Option<Never>) -> bool {
        residual is None
    }

    fn branch(this: Option<T>) -> (r: Result<T, Option<Never>>) {
        match this {
            Some(v) => Ok(v),
            None => Err(None),
        }
    }
}

impl<T> Residual<T> for Option<Never> {
    type WithOutput = Option<T>;

    open spec fn is_residual(this: Option<Never>) -> bool {
        this is None
    }

    open spec fn completed(this: Option<Never>) -> Option<T> {
        None
    }

    fn with_output(this: Option<Never>) -> (r: Option<T>) {
        match this {
            Some(_) => unreached(),
            None => None,
        }
    }
}

/// The return type of a function pointer type, read off as an associated
/// type.  Its intended impl — for the type of functions that never return,
/// whose `Ret` would then be a truly uninhabited type — involves a
/// function pointer type, which the verifier does not accept; [`Never`]
/// plays that role here instead.
pub trait FnPtr {
    type Ret;
}

} // verus!
