//! The canonical bool-like type: the semantic reference every emitted
//! bool-like method mirrors.
//!
//! [`Flag`] is the two-unit-variant enum the bool-like capability
//! generates: `Primary` stands for true, `Secondary` for false.

use vstd::prelude::*;

verus! {

/// The canonical bool-like type: two empty variants, the primary one
/// standing for true.
#[derive(Clone, Copy, PartialEq, Eq, Structural, Debug)]
pub enum Flag {
    Primary,
    Secondary,
}

impl crate::BoolLike for Flag {

}

/// What a bool-like value converts to in the primitive boolean type.
pub open spec fn spec_to_bool(x: Flag) -> bool {
    x is Primary
}

/// What a primitive boolean converts to in the bool-like type.
pub open spec fn spec_from_bool(value: bool) -> Flag {
    if value {
        Flag::Primary
    } else {
        Flag::Secondary
    }
}

/// The two conversions are mutually inverse.
pub proof fn lemma_bool_round_trip(x: Flag, b: bool)
    ensures
        spec_from_bool(spec_to_bool(x)) == x,
        spec_to_bool(spec_from_bool(b)) == b,
{
}

impl Flag {
    /// Converts into the primitive boolean type: the primary variant is
    /// true.
    pub fn to_bool(self) -> (r: bool)
        ensures
            r == spec_to_bool(self),
    {
        match self {
            Flag::Primary => true,
            Flag::Secondary => false,
        }
    }

    /// Converts from the primitive boolean type: true becomes the primary
    /// variant.
    pub fn from_bool(value: bool) -> (r: Self)
        ensures
            r == spec_from_bool(value),
    {
        if value {
            Flag::Primary
        } else {
            Flag::Secondary
        }
    }

    /// The given value when this flag is primary, nothing otherwise.
    pub fn then_some<T>(self, t: T) -> (r: Option<T>)
        ensures
            self is Primary ==> r == Some(t),
            self is Secondary ==> r is None,
    {
        match self {
            Flag::Primary => Some(t),
            Flag::Secondary => None,
        }
    }

    /// A lazily computed value when this flag is primary, nothing
    /// otherwise.
    pub fn then_with<T, F: FnOnce() -> T>(self, f: F) -> (r: Option<T>)
        requires
            self is Primary ==> f.requires(()),
        ensures
            self is Primary ==> (r matches Some(v) && f.ensures((), v)),
            self is Secondary ==> r is None,
    {
        match self {
            Flag::Primary => Some(f()),
            Flag::Secondary => None,
        }
    }
}

} // verus!
