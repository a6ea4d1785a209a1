//! The canonical option-like type: the semantic reference every emitted
//! option-like method mirrors.
//!
//! [`Opt`] is the two-variant enum the option-like capability generates,
//! with the roles as variant names: `Primary` carries the payload,
//! `Secondary` is empty.  Its methods carry the exact contracts of the
//! generated method set.

use vstd::pervasive::{cloned, unreached};
use vstd::prelude::*;

verus! {

/// Marker for option-like generated types over payload `T`.
pub trait OptionLike<T> {

}

/// The canonical option-like type over payload `V`: a payload-bearing
/// primary variant and an empty secondary variant.
#[derive(Clone, Copy, PartialEq, Eq, Debug)]
pub enum Opt<V> {
    Primary(V),
    Secondary,
}

impl<T> OptionLike<T> for Opt<T> {

}

impl<V> crate::OptionLike for Opt<V> {
    type SomeType = V;
}

/// What an option-like value converts to in the standard optional type.
pub open spec fn spec_into_option<V>(x: Opt<V>) -> Option<V> {
    match x {
        Opt::Primary(v) => Some(v),
        Opt::Secondary => None,
    }
}

/// What a standard optional value converts to in the option-like type.
pub open spec fn spec_from_option<V>(o: Option<V>) -> Opt<V> {
    match o {
        Some(v) => Opt::Primary(v),
        None => Opt::Secondary,
    }
}

/// The two conversions are mutually inverse: converting an option-like
/// value to the standard optional type and back yields the value
/// unchanged, and likewise starting from the standard optional type.
pub proof fn lemma_option_round_trip<V>(x: Opt<V>, o: Option<V>)
    ensures
        spec_from_option(spec_into_option(x)) == x,
        spec_into_option(spec_from_option(o)) == o,
{
}

impl<V> Opt<V> {
    /// Converts from the standard optional type: `Some` becomes the
    /// primary variant, `None` the secondary.
    pub fn from_option(option: Option<V>) -> (r: Self)
        ensures
            r == spec_from_option(option),
    {
        match option {
            Some(v) => Opt::Primary(v),
            None => Opt::Secondary,
        }
    }

    /// Converts into the standard optional type: the primary variant
    /// becomes `Some`, the secondary `None`.
    pub fn into_option(self) -> (r: Option<V>)
        ensures
            r == spec_into_option(self),
    {
        match self {
            Opt::Primary(v) => Some(v),
            Opt::Secondary => None,
        }
    }

    /// A borrowed view of the payload in the standard optional type.
    pub fn as_option(&self) -> (r: Option<&V>)
        ensures
            r is Some <==> *self is Primary,
            r matches Some(v) ==> *v == self->Primary_0,
    {
        match self {
            Opt::Primary(v) => Some(v),
            Opt::Secondary => None,
        }
    }

    /// Whether this value carries a payload.
    pub fn is_primary(&self) -> (r: bool)
        ensures
            r == (*self is Primary),
    {
        match self {
            Opt::Primary(_) => true,
            Opt::Secondary => false,
        }
    }

    /// Whether this value is the empty variant.
    pub fn is_secondary(&self) -> (r: bool)
        ensures
            r == (*self is Secondary),
    {
        match self {
            Opt::Primary(_) => false,
            Opt::Secondary => true,
        }
    }

    /// The payload; the caller must rule out the secondary variant, on
    /// which the generated method aborts with the given message.
    pub fn expect(self, msg: &str) -> (r: V)
        requires
            self is Primary,
        ensures
            r == self->Primary_0,
    {
        match self {
            Opt::Primary(v) => v,
            Opt::Secondary => unreached(),
        }
    }

    /// The payload; the caller must rule out the secondary variant, on
    /// which the generated method aborts.
    pub fn unwrap(self) -> (r: V)
        requires
            self is Primary,
        ensures
            r == self->Primary_0,
    {
        match self {
            Opt::Primary(v) => v,
            Opt::Secondary => unreached(),
        }
    }

    /// The payload, or the given default on the secondary variant.
    pub fn unwrap_or(self, default: V) -> (r: V)
        ensures
            self matches Opt::Primary(v) ==> r == v,
            self is Secondary ==> r == default,
    {
        match self {
            Opt::Primary(v) => v,
            Opt::Secondary => default,
        }
    }

    /// The payload, or the result of the deferred computation on the
    /// secondary variant.
    pub fn unwrap_or_else<F: FnOnce() -> V>(self, f: F) -> (r: V)
        requires
            self is Secondary ==> f.requires(()),
        ensures
            self matches Opt::Primary(v) ==> r == v,
            self is Secondary ==> f.ensures((), r),
    {
        match self {
            Opt::Primary(v) => v,
            Opt::Secondary => f(),
        }
    }

    /// Success with the payload, or the given error on the secondary
    /// variant.
    pub fn ok_or<E>(self, err: E) -> (r: Result<V, E>)
        ensures
            self matches Opt::Primary(v) ==> r == Ok::<V, E>(v),
            self is Secondary ==> r == Err::<V, E>(err),
    {
        match self {
            Opt::Primary(v) => Ok(v),
            Opt::Secondary => Err(err),
        }
    }

    /// Success with the payload, or a lazily computed error on the
    /// secondary variant.
    pub fn ok_or_else<E, F: FnOnce() -> E>(self, err: F) -> (r: Result<V, E>)
        requires
            self is Secondary ==> err.requires(()),
        ensures
            self matches Opt::Primary(v) ==> r == Ok::<V, E>(v),
            self is Secondary ==> (r matches Err(e) && err.ensures((), e)),
    {
        match self {
            Opt::Primary(v) => Ok(v),
            Opt::Secondary => Err(err()),
        }
    }

    /// Keeps the payload only when the predicate accepts it.
    pub fn filter<P: FnOnce(&V) -> bool>(self, predicate: P) -> (r: Self)
        requires
            self matches Opt::Primary(v) ==> predicate.requires((&v,)),
        ensures
            self is Secondary ==> r is Secondary,
            self matches Opt::Primary(v) ==> ((r == self && predicate.ensures((&v,), true)) || (r
                is Secondary && predicate.ensures((&v,), false))),
    {
        match self {
            Opt::Primary(v) => {
                if predicate(&v) {
                    Opt::Primary(v)
                } else {
                    Opt::Secondary
                }
            },
            Opt::Secondary => Opt::Secondary,
        }
    }

    /// This value when it carries a payload, otherwise the alternative.
    pub fn or(self, optb: Self) -> (r: Self)
        ensures
            self is Primary ==> r == self,
            self is Secondary ==> r == optb,
    {
        match self {
            Opt::Primary(v) => Opt::Primary(v),
            Opt::Secondary => optb,
        }
    }

    /// This value when it carries a payload, otherwise the lazily
    /// computed alternative.
    pub fn or_else<F: FnOnce() -> Self>(self, f: F) -> (r: Self)
        requires
            self is Secondary ==> f.requires(()),
        ensures
            self is Primary ==> r == self,
            self is Secondary ==> f.ensures((), r),
    {
        match self {
            Opt::Primary(v) => Opt::Primary(v),
            Opt::Secondary => f(),
        }
    }

    /// The transformed payload, or the given default on the secondary
    /// variant.
    pub fn map_or<U, F: FnOnce(V) -> U>(self, default: U, f: F) -> (r: U)
        requires
            self matches Opt::Primary(v) ==> f.requires((v,)),
        ensures
            self matches Opt::Primary(v) ==> f.ensures((v,), r),
            self is Secondary ==> r == default,
    {
        match self {
            Opt::Primary(v) => f(v),
            Opt::Secondary => default,
        }
    }

    /// The payload of exactly one side, or the secondary variant when
    /// both or neither carry one.
    pub fn xor(self, optb: Self) -> (r: Self)
        ensures
            self is Primary && optb is Secondary ==> r == self,
            self is Secondary && optb is Primary ==> r == optb,
            self is Primary && optb is Primary ==> r is Secondary,
            self is Secondary && optb is Secondary ==> r is Secondary,
    {
        match (self, optb) {
            (Opt::Primary(a), Opt::Secondary) => Opt::Primary(a),
            (Opt::Secondary, Opt::Primary(b)) => Opt::Primary(b),
            _ => Opt::Secondary,
        }
    }

    /// Fills an empty value with the given payload; an existing payload
    /// is kept.
    pub fn get_or_insert(&mut self, v: V)
        ensures
            *old(self) is Primary ==> *final(self) == *old(self),
            *old(self) is Secondary ==> *final(self) == Opt::Primary(v),
    {
        if self.is_secondary() {
            *self = Opt::Primary(v);
        }
    }

    /// Fills an empty value with a lazily computed payload; an existing
    /// payload is kept.
    pub fn get_or_insert_with<F: FnOnce() -> V>(&mut self, f: F)
        requires
            *old(self) is Secondary ==> f.requires(()),
        ensures
            *old(self) is Primary ==> *final(self) == *old(self),
            *old(self) is Secondary ==> (*final(self) matches Opt::Primary(v) && f.ensures((), v)),
    {
        if self.is_secondary() {
            *self = Opt::Primary(f());
        }
    }

    /// Replaces the value by a primary one with the given payload and
    /// hands the old value back.
    pub fn replace(&mut self, value: V) -> (r: Self)
        ensures
            *final(self) == Opt::Primary(value),
            r == *old(self),
    {
        let mut taken = Opt::Primary(value);
        core::mem::swap(self, &mut taken);
        taken
    }

    /// Takes the value out, leaving the empty variant behind.
    pub fn take(&mut self) -> (r: Self)
        ensures
            *final(self) is Secondary,
            r == *old(self),
    {
        let mut taken = Opt::Secondary;
        core::mem::swap(self, &mut taken);
        taken
    }

    /// A value borrowing the payload in place.
    pub fn as_ref(&self) -> (r: Opt<&V>)
        ensures
            r is Primary <==> *self is Primary,
            r matches Opt::Primary(v) ==> *v == self->Primary_0,
    {
        match self {
            Opt::Primary(v) => Opt::Primary(v),
            Opt::Secondary => Opt::Secondary,
        }
    }

    /// Transforms the payload; the secondary variant passes through
    /// unchanged.
    pub fn map<U, F: FnOnce(V) -> U>(self, f: F) -> (r: Opt<U>)
        requires
            self matches Opt::Primary(v) ==> f.requires((v,)),
        ensures
            self is Secondary ==> r is Secondary,
            self matches Opt::Primary(v) ==> r matches Opt::Primary(u) && f.ensures((v,), u),
    {
        match self {
            Opt::Primary(v) => Opt::Primary(f(v)),
            Opt::Secondary => Opt::Secondary,
        }
    }

    /// The transformed payload, or the lazily computed default on the
    /// secondary variant.
    pub fn map_or_else<U, D: FnOnce() -> U, F: FnOnce(V) -> U>(self, default: D, f: F) -> (r: U)
        requires
            self matches Opt::Primary(v) ==> f.requires((v,)),
            self is Secondary ==> default.requires(()),
        ensures
            self matches Opt::Primary(v) ==> f.ensures((v,), r),
            self is Secondary ==> default.ensures((), r),
    {
        match self {
            Opt::Primary(v) => f(v),
            Opt::Secondary => default(),
        }
    }

    /// The alternative when this value carries a payload, otherwise the
    /// secondary variant.
    pub fn and<U>(self, optb: Opt<U>) -> (r: Opt<U>)
        ensures
            self is Primary ==> r == optb,
            self is Secondary ==> r is Secondary,
    {
        match self {
            Opt::Primary(_) => optb,
            Opt::Secondary => Opt::Secondary,
        }
    }

    /// Chains a payload-consuming computation; the secondary variant
    /// short-circuits.
    pub fn and_then<U, F: FnOnce(V) -> Opt<U>>(self, f: F) -> (r: Opt<U>)
        requires
            self matches Opt::Primary(v) ==> f.requires((v,)),
        ensures
            self matches Opt::Primary(v) ==> f.ensures((v,), r),
            self is Secondary ==> r is Secondary,
    {
        match self {
            Opt::Primary(v) => f(v),
            Opt::Secondary => Opt::Secondary,
        }
    }

    /// Pairs two payloads; empty when either side is empty.
    pub fn zip<U>(self, other: Opt<U>) -> (r: Opt<(V, U)>)
        ensures
            self matches Opt::Primary(a) ==> (other matches Opt::Primary(b) ==> r == Opt::Primary(
                (a, b),
            )),
            self is Secondary || other is Secondary ==> r is Secondary,
    {
        match (self, other) {
            (Opt::Primary(a), Opt::Primary(b)) => Opt::Primary((a, b)),
            _ => Opt::Secondary,
        }
    }
}

impl<V: Default> Opt<V> {
    /// The payload, or the payload type's default value on the secondary
    /// variant.
    pub fn unwrap_or_default(self) -> (r: V)
        ensures
            self matches Opt::Primary(v) ==> r == v,
            self is Secondary ==> V::default.ensures((), r),
    {
        match self {
            Opt::Primary(v) => v,
            Opt::Secondary => V::default(),
        }
    }
}

impl<'a, V: Copy> Opt<&'a V> {
    /// Copies a borrowed payload out.
    pub fn copied(self) -> (r: Opt<V>)
        ensures
            self matches Opt::Primary(v) ==> r == Opt::Primary(*v),
            self is Secondary ==> r is Secondary,
    {
        match self {
            Opt::Primary(v) => Opt::Primary(*v),
            Opt::Secondary => Opt::Secondary,
        }
    }
}

impl<'a, V: Clone> Opt<&'a V> {
    /// Clones a borrowed payload out.
    pub fn cloned(self) -> (r: Opt<V>)
        ensures
            self matches Opt::Primary(v) ==> r matches Opt::Primary(u) && cloned::<V>(*v, u),
            self is Secondary ==> r is Secondary,
    {
        match self {
            Opt::Primary(v) => Opt::Primary(v.clone()),
            Opt::Secondary => Opt::Secondary,
        }
    }
}

impl<T, E> Opt<Result<T, E>> {
    /// Swaps the option-like and fallible-result layers.
    pub fn transpose(self) -> (r: Result<Opt<T>, E>)
        ensures
            self is Secondary ==> r == Ok::<Opt<T>, E>(Opt::Secondary),
            self matches Opt::Primary(x) ==> match x {
                Ok(t) => r == Ok::<Opt<T>, E>(Opt::Primary(t)),
                Err(e) => r == Err::<Opt<T>, E>(e),
            },
    {
        match self {
            Opt::Primary(Ok(t)) => Ok(Opt::Primary(t)),
            Opt::Primary(Err(e)) => Err(e),
            Opt::Secondary => Ok(Opt::Secondary),
        }
    }
}

impl<V> Default for Opt<V> {
    /// Default construction always yields the secondary (absent) variant,
    /// regardless of payload type.
    fn default() -> (r: Self)
        ensures
            r is Secondary,
    {
        Opt::Secondary
    }
}

} // verus!
