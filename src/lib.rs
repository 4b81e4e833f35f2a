//! Blanket traits that turn any value into an `Option` or a `Result`.
//!
//! Instead of wrapping a long method chain in `Some(..)`, `Ok(..)` or `Err(..)`,
//! tack `.into_some()`, `.into_ok()` or `.into_err()` onto its end. Each method
//! moves the value into the chosen variant and does nothing else; the contracts
//! below say exactly that.
use vstd::prelude::*;

verus! {

/// Provides `into_some`. Implemented for all `Sized` types.
pub trait IntoOption: Sized {
    /// Consumes `self` and returns it wrapped in `Some`.
    fn into_some(self) -> (r: Option<Self>)
        ensures
            r == Some(self),
    ;
}

impl<T: Sized> IntoOption for T {
    fn into_some(self) -> (r: Option<Self>)
        ensures
            r == Some(self),
    {
        Some(self)
    }
}

/// Provides `into_ok` and `into_err`. Implemented for all `Sized` types.
pub trait IntoResult: Sized {
    /// Consumes `self` and returns it wrapped in `Ok`.
    fn into_ok<E>(self) -> (r: Result<Self, E>)
        ensures
            r == Ok::<Self, E>(self),
    ;

    /// Consumes `self` and returns it wrapped in `Err`.
    fn into_err<O>(self) -> (r: Result<O, Self>)
        ensures
            r == Err::<O, Self>(self),
    ;
}

// Both methods are held to the contracts of the trait declaration.
impl<T: Sized> IntoResult for T {
    fn into_ok<E>(self) -> (r: Result<Self, E>) {
        Ok(self)
    }

    fn into_err<O>(self) -> (r: Result<O, Self>) {
        Err(self)
    }
}

/// Wrapping loses nothing: whatever `into_some`, `into_ok` or `into_err` may
/// return for `v`, it is in the variant that was asked for, and taking the
/// payload out of that variant gives `v` back.
pub proof fn lemma_unwrap_after_wrap<T, E, O>(v: T)
    ensures
        forall|r: Option<T>|
            call_ensures(<T as IntoOption>::into_some, (v,), r) ==> (r is Some && r->Some_0 == v),
        forall|r: Result<T, E>|
            call_ensures(<T as IntoResult>::into_ok::<E>, (v,), r) ==> (r is Ok && r->Ok_0 == v),
        forall|r: Result<O, T>|
            call_ensures(<T as IntoResult>::into_err::<O>, (v,), r) ==> (r is Err && r->Err_0 == v),
{
}

} // verus!
