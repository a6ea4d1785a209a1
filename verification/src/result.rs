//! The canonical result-like type: the semantic reference every emitted
//! result-like method mirrors.
//!
//! [`Res`] is the two-variant enum the result-like capability generates,
//! with the roles as variant names: `Primary` carries the success payload,
//! `Secondary` the error payload.  Its methods carry the exact contracts
//! of the generated method set.

use vstd::pervasive::{cloned, unreached};
use vstd::prelude::*;

verus! {

/// Marker for result-like generated types over payloads `T` and `E`.
pub trait ResultLike<T, E> {

}

/// The canonical result-like type: a success payload `T` in the primary
/// variant, an error payload `E` in the secondary.
#[derive(Clone, Copy, PartialEq, Eq, Debug)]
pub enum Res<T, E> {
    Primary(T),
    Secondary(E),
}

impl<T, E> ResultLike<T, E> for Res<T, E> {

}

impl<T, E> crate::ResultLike for Res<T, E> {
    type OkType = T;

    type ErrType = E;
}

/// What a result-like value converts to in the standard fallible-result
/// type.
pub open spec fn spec_into_result<T, E>(x: Res<T, E>) -> Result<T, E> {
    match x {
        Res::Primary(t) => Ok(t),
        Res::Secondary(e) => Err(e),
    }
}

/// What a standard fallible-result value converts to in the result-like
/// type.
pub open spec fn spec_from_result<T, E>(r: Result<T, E>) -> Res<T, E> {
    match r {
        Ok(t) => Res::Primary(t),
        Err(e) => Res::Secondary(e),
    }
}

/// The two conversions are mutually inverse: converting a result-like
/// value to the standard fallible-result type and back yields the value
/// unchanged, and likewise starting from the standard type.
pub proof fn lemma_result_round_trip<T, E>(x: Res<T, E>, r: Result<T, E>)
    ensures
        spec_from_result(spec_into_result(x)) == x,
        spec_into_result(spec_from_result(r)) == r,
{
}

impl<T, E> Res<T, E> {
    /// Converts from the standard fallible-result type: `Ok` becomes the
    /// primary variant, `Err` the secondary.
    pub fn from_result(result: Result<T, E>) -> (r: Self)
        ensures
            r == spec_from_result(result),
    {
        match result {
            Ok(t) => Res::Primary(t),
            Err(e) => Res::Secondary(e),
        }
    }

    /// Converts into the standard fallible-result type: the primary
    /// variant becomes `Ok`, the secondary `Err`.
    pub fn into_result(self) -> (r: Result<T, E>)
        ensures
            r == spec_into_result(self),
    {
        match self {
            Res::Primary(t) => Ok(t),
            Res::Secondary(e) => Err(e),
        }
    }

    /// A borrowed view of either payload in the standard fallible-result
    /// type.
    pub fn as_result(&self) -> (r: Result<&T, &E>)
        ensures
            r is Ok <==> *self is Primary,
            r matches Ok(t) ==> *t == self->Primary_0,
            r matches Err(e) ==> *e == self->Secondary_0,
    {
        match self {
            Res::Primary(t) => Ok(t),
            Res::Secondary(e) => Err(e),
        }
    }

    /// A value borrowing either payload in place.
    pub fn as_ref(&self) -> (r: Res<&T, &E>)
        ensures
            r is Primary <==> *self is Primary,
            r matches Res::Primary(t) ==> *t == self->Primary_0,
            r matches Res::Secondary(e) ==> *e == self->Secondary_0,
    {
        match self {
            Res::Primary(t) => Res::Primary(t),
            Res::Secondary(e) => Res::Secondary(e),
        }
    }

    /// Whether this value carries the success payload.
    pub fn is_primary(&self) -> (r: bool)
        ensures
            r == (*self is Primary),
    {
        match self {
            Res::Primary(_) => true,
            Res::Secondary(_) => false,
        }
    }

    /// Whether this value carries the error payload.
    pub fn is_secondary(&self) -> (r: bool)
        ensures
            r == (*self is Secondary),
    {
        match self {
            Res::Primary(_) => false,
            Res::Secondary(_) => true,
        }
    }

    /// The transformed success payload, or the given default when this
    /// value carries the error payload.
    pub fn map_or<U, F: FnOnce(T) -> U>(self, default: U, f: F) -> (r: U)
        requires
            self matches Res::Primary(t) ==> f.requires((t,)),
        ensures
            self matches Res::Primary(t) ==> f.ensures((t,), r),
            self is Secondary ==> r == default,
    {
        match self {
            Res::Primary(t) => f(t),
            Res::Secondary(_) => default,
        }
    }

    /// The success payload, or the given alternative.
    pub fn unwrap_or(self, optb: T) -> (r: T)
        ensures
            self matches Res::Primary(t) ==> r == t,
            self is Secondary ==> r == optb,
    {
        match self {
            Res::Primary(t) => t,
            Res::Secondary(_) => optb,
        }
    }

    /// The success payload, or one computed from the error payload.
    pub fn unwrap_or_else<F: FnOnce(E) -> T>(self, op: F) -> (r: T)
        requires
            self matches Res::Secondary(e) ==> op.requires((e,)),
        ensures
            self matches Res::Primary(t) ==> r == t,
            self matches Res::Secondary(e) ==> op.ensures((e,), r),
    {
        match self {
            Res::Primary(t) => t,
            Res::Secondary(e) => op(e),
        }
    }

    /// Transforms the success payload; the error payload passes through
    /// untouched.
    pub fn map<U, F: FnOnce(T) -> U>(self, op: F) -> (r: Res<U, E>)
        requires
            self matches Res::Primary(t) ==> op.requires((t,)),
        ensures
            self matches Res::Primary(t) ==> (r matches Res::Primary(u) && op.ensures((t,), u)),
            self matches Res::Secondary(e) ==> r == Res::<U, E>::Secondary(e),
    {
        match self {
            Res::Primary(t) => Res::Primary(op(t)),
            Res::Secondary(e) => Res::Secondary(e),
        }
    }

    /// Transforms whichever payload is present into one result value,
    /// mapping success and falling back on the error.
    pub fn map_or_else<U, M: FnOnce(T) -> U, F: FnOnce(E) -> U>(self, fallback: F, map: M) -> (r:
        U)
        requires
            self matches Res::Primary(t) ==> map.requires((t,)),
            self matches Res::Secondary(e) ==> fallback.requires((e,)),
        ensures
            self matches Res::Primary(t) ==> map.ensures((t,), r),
            self matches Res::Secondary(e) ==> fallback.ensures((e,), r),
    {
        match self {
            Res::Primary(t) => map(t),
            Res::Secondary(e) => fallback(e),
        }
    }

    /// Transforms the error payload; the success payload passes through
    /// untouched.
    pub fn map_err<F, O: FnOnce(E) -> F>(self, op: O) -> (r: Res<T, F>)
        requires
            self matches Res::Secondary(e) ==> op.requires((e,)),
        ensures
            self matches Res::Primary(t) ==> r == Res::<T, F>::Primary(t),
            self matches Res::Secondary(e) ==> (r matches Res::Secondary(x) && op.ensures(
                (e,),
                x,
            )),
    {
        match self {
            Res::Primary(t) => Res::Primary(t),
            Res::Secondary(e) => Res::Secondary(op(e)),
        }
    }

    /// The alternative on success, otherwise the error payload carried
    /// through.
    pub fn and<U>(self, res: Res<U, E>) -> (r: Res<U, E>)
        ensures
            self is Primary ==> r == res,
            self matches Res::Secondary(e) ==> r == Res::<U, E>::Secondary(e),
    {
        match self {
            Res::Primary(_) => res,
            Res::Secondary(e) => Res::Secondary(e),
        }
    }

    /// Chains a computation over the success payload; the error payload
    /// short-circuits.
    pub fn and_then<U, F: FnOnce(T) -> Res<U, E>>(self, op: F) -> (r: Res<U, E>)
        requires
            self matches Res::Primary(t) ==> op.requires((t,)),
        ensures
            self matches Res::Primary(t) ==> op.ensures((t,), r),
            self matches Res::Secondary(e) ==> r == Res::<U, E>::Secondary(e),
    {
        match self {
            Res::Primary(t) => op(t),
            Res::Secondary(e) => Res::Secondary(e),
        }
    }

    /// This value on success, otherwise the alternative.
    pub fn or<F>(self, res: Res<T, F>) -> (r: Res<T, F>)
        ensures
            self matches Res::Primary(t) ==> r == Res::<T, F>::Primary(t),
            self is Secondary ==> r == res,
    {
        match self {
            Res::Primary(t) => Res::Primary(t),
            Res::Secondary(_) => res,
        }
    }

    /// This value on success, otherwise one computed from the error
    /// payload.
    pub fn or_else<F, O: FnOnce(E) -> Res<T, F>>(self, op: O) -> (r: Res<T, F>)
        requires
            self matches Res::Secondary(e) ==> op.requires((e,)),
        ensures
            self matches Res::Primary(t) ==> r == Res::<T, F>::Primary(t),
            self matches Res::Secondary(e) ==> op.ensures((e,), r),
    {
        match self {
            Res::Primary(t) => Res::Primary(t),
            Res::Secondary(e) => op(e),
        }
    }

    /// The success payload; the caller must rule out the error variant,
    /// on which the generated method aborts with the given message.  The
    /// generated method exists only where the error payload supports
    /// debug formatting, which renders that message.
    pub fn expect(self, msg: &str) -> (r: T)
        requires
            self is Primary,
        ensures
            r == self->Primary_0,
    {
        match self {
            Res::Primary(t) => t,
            Res::Secondary(_) => unreached(),
        }
    }

    /// The success payload; the caller must rule out the error variant,
    /// on which the generated method aborts embedding the formatted error
    /// payload.  The generated method exists only where the error payload
    /// supports debug formatting.
    pub fn unwrap(self) -> (r: T)
        requires
            self is Primary,
        ensures
            r == self->Primary_0,
    {
        match self {
            Res::Primary(t) => t,
            Res::Secondary(_) => unreached(),
        }
    }

    /// The error payload; the caller must rule out the success variant,
    /// on which the generated method aborts.  The generated method exists
    /// only where the success payload supports debug formatting.
    pub fn unwrap_err(self) -> (r: E)
        requires
            self is Secondary,
        ensures
            r == self->Secondary_0,
    {
        match self {
            Res::Primary(_) => unreached(),
            Res::Secondary(e) => e,
        }
    }
}

impl<T: Default, E> Res<T, E> {
    /// The success payload, or its type's default value on the error
    /// variant.
    pub fn unwrap_or_default(self) -> (r: T)
        ensures
            self matches Res::Primary(t) ==> r == t,
            self is Secondary ==> T::default.ensures((), r),
    {
        match self {
            Res::Primary(t) => t,
            Res::Secondary(_) => T::default(),
        }
    }
}

impl<'a, T: Copy, E> Res<&'a T, E> {
    /// Copies a borrowed success payload out.
    pub fn copied(self) -> (r: Res<T, E>)
        ensures
            self matches Res::Primary(t) ==> r == Res::<T, E>::Primary(*t),
            self matches Res::Secondary(e) ==> r == Res::<T, E>::Secondary(e),
    {
        match self {
            Res::Primary(t) => Res::Primary(*t),
            Res::Secondary(e) => Res::Secondary(e),
        }
    }
}

impl<'a, T: Clone, E> Res<&'a T, E> {
    /// Clones a borrowed success payload out.
    pub fn cloned(self) -> (r: Res<T, E>)
        ensures
            self matches Res::Primary(t) ==> (r matches Res::Primary(u) && cloned::<T>(*t, u)),
            self matches Res::Secondary(e) ==> r == Res::<T, E>::Secondary(e),
    {
        match self {
            Res::Primary(t) => Res::Primary(t.clone()),
            Res::Secondary(e) => Res::Secondary(e),
        }
    }
}

impl<T, E> Res<Option<T>, E> {
    /// Swaps the result-like and standard optional layers.
    pub fn transpose(self) -> (r: Option<Res<T, E>>)
        ensures
            self matches Res::Primary(x) ==> match x {
                Some(t) => r == Some(Res::<T, E>::Primary(t)),
                None => r is None,
            },
            self matches Res::Secondary(e) ==> r == Some(Res::<T, E>::Secondary(e)),
    {
        match self {
            Res::Primary(Some(t)) => Some(Res::Primary(t)),
            Res::Primary(None) => None,
            Res::Secondary(e) => Some(Res::Secondary(e)),
        }
    }
}

} // verus!
