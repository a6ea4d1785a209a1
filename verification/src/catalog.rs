//! The method catalog: every method or trait implementation the emitter can
//! produce, together with its gating data — the capability predicate each
//! entry puts on the payload type(s), and the generic-parameter condition
//! under which it is emitted at all.

use vstd::prelude::*;

verus! {

/// The structural requirement a catalog entry puts on a payload type.  It
/// is emitted as a where-constraint on the generated declaration; an entry
/// with `NoBound` applies to every payload type.
#[derive(Clone, Copy, PartialEq, Eq, Structural, Debug)]
pub enum Bound {
    NoBound,
    NeedsDefault,
    NeedsCopy,
    NeedsClone,
    NeedsDeref,
    NeedsDerefMut,
    NeedsDebug,
}

/// An emittable declaration for an option-like type.
#[derive(Clone, Copy, PartialEq, Eq, Structural, Debug)]
pub enum OptionDecl {
    /// Implementation of the option-like marker trait.
    MarkerImpl,
    FromOption,
    IntoOption,
    AsOption,
    AsOptionMut,
    Expect,
    Unwrap,
    UnwrapOr,
    UnwrapOrElse,
    OkOr,
    OkOrElse,
    Filter,
    Or,
    OrElse,
    MapOr,
    Xor,
    GetOrInsert,
    GetOrInsertWith,
    Replace,
    /// Conversion from the standard optional type.
    FromStdOptionImpl,
    /// Conversion into the standard optional type.
    IntoStdOptionImpl,
    /// Conversion from the payload type.
    FromPayloadImpl,
    /// Default construction, yielding the secondary (absent) variant.
    DefaultImpl,
    /// Iteration yielding zero or one payload.
    IntoIterImpl,
    AsRef,
    AsMut,
    MapPayload,
    MapOrElse,
    Iter,
    IterMut,
    And,
    AndThen,
    Zip,
    Take,
    UnwrapOrDefault,
    CopyImpl,
    /// Clone implementation with the in-place `clone_from` that reuses
    /// storage only when both sides are primary.
    CloneImpl,
    /// `copied` over a shared-reference payload.
    CopiedRef,
    /// `copied` over a mutable-reference payload.
    CopiedMut,
    /// `cloned` over a shared-reference payload.
    ClonedRef,
    /// `cloned` over a mutable-reference payload.
    ClonedMut,
    AsDeref,
    AsDerefMut,
    /// `transpose`, applicable when the payload is the standard
    /// fallible-result type.
    Transpose,
}

/// An emittable declaration for a result-like type.
#[derive(Clone, Copy, PartialEq, Eq, Structural, Debug)]
pub enum ResultDecl {
    /// Implementation of the result-like marker trait.
    MarkerImpl,
    FromResult,
    IntoResult,
    AsResult,
    AsResultMut,
    MapOr,
    UnwrapOr,
    UnwrapOrElse,
    /// Conversion from the standard fallible-result type.
    FromStdResultImpl,
    /// Conversion into the standard fallible-result type.
    IntoStdResultImpl,
    Expect,
    Unwrap,
    UnwrapErr,
    MapPayload,
    MapOrElse,
    And,
    AndThen,
    UnwrapOrDefault,
    /// `copied` over a shared-reference primary payload.
    CopiedRef,
    /// `copied` over a mutable-reference primary payload.
    CopiedMut,
    /// `cloned` over a shared-reference primary payload.
    ClonedRef,
    /// `cloned` over a mutable-reference primary payload.
    ClonedMut,
    /// `transpose`, applicable when the primary payload is the standard
    /// optional type.
    Transpose,
    MapErr,
    Or,
    OrElse,
    AsRef,
    AsMut,
    CopyImpl,
    /// Clone implementation with the in-place `clone_from` that reuses
    /// storage only when both sides carry the same role.
    CloneImpl,
    AsDeref,
    /// Iteration yielding zero or one primary payload.
    IntoIterImpl,
}

/// An emittable declaration for a bool-like type.
#[derive(Clone, Copy, PartialEq, Eq, Structural, Debug)]
pub enum BoolDecl {
    ToBool,
    FromBool,
    ThenSome,
    /// `then` with a deferred computation; named apart from `ThenSome`.
    ThenWith,
    /// Conversion from the primitive boolean type.
    FromBoolImpl,
    /// Conversion into the primitive boolean type.
    IntoBoolImpl,
}

/// The generic-parameter condition under which a result-like entry is
/// emitted.
#[derive(Clone, Copy, PartialEq, Eq, Structural, Debug)]
pub enum Gate {
    /// Always emitted.
    Baseline,
    /// Only when the primary payload is a free type parameter.
    PrimaryGeneric,
    /// Only when the secondary payload is a free type parameter.
    SecondaryGeneric,
    /// Only when both payloads are free type parameters.
    BothGeneric,
}

/// Whether an option-like entry is emitted only while the enum retains at
/// least one free generic parameter.
pub open spec fn spec_option_needs_generics(d: OptionDecl) -> bool {
    match d {
        OptionDecl::AsRef => true,
        OptionDecl::AsMut => true,
        OptionDecl::MapPayload => true,
        OptionDecl::MapOrElse => true,
        OptionDecl::Iter => true,
        OptionDecl::IterMut => true,
        OptionDecl::And => true,
        OptionDecl::AndThen => true,
        OptionDecl::Zip => true,
        OptionDecl::Take => true,
        OptionDecl::UnwrapOrDefault => true,
        OptionDecl::CopyImpl => true,
        OptionDecl::CloneImpl => true,
        OptionDecl::CopiedRef => true,
        OptionDecl::CopiedMut => true,
        OptionDecl::ClonedRef => true,
        OptionDecl::ClonedMut => true,
        OptionDecl::AsDeref => true,
        OptionDecl::AsDerefMut => true,
        OptionDecl::Transpose => true,
        _ => false,
    }
}

#[verifier::when_used_as_spec(spec_option_needs_generics)]
pub fn option_needs_generics(d: OptionDecl) -> (r: bool)
    ensures
        r == spec_option_needs_generics(d),
{
    match d {
        OptionDecl::AsRef => true,
        OptionDecl::AsMut => true,
        OptionDecl::MapPayload => true,
        OptionDecl::MapOrElse => true,
        OptionDecl::Iter => true,
        OptionDecl::IterMut => true,
        OptionDecl::And => true,
        OptionDecl::AndThen => true,
        OptionDecl::Zip => true,
        OptionDecl::Take => true,
        OptionDecl::UnwrapOrDefault => true,
        OptionDecl::CopyImpl => true,
        OptionDecl::CloneImpl => true,
        OptionDecl::CopiedRef => true,
        OptionDecl::CopiedMut => true,
        OptionDecl::ClonedRef => true,
        OptionDecl::ClonedMut => true,
        OptionDecl::AsDeref => true,
        OptionDecl::AsDerefMut => true,
        OptionDecl::Transpose => true,
        _ => false,
    }
}

/// The capability predicate an option-like entry puts on the payload type.
pub open spec fn spec_option_bound(d: OptionDecl) -> Bound {
    match d {
        OptionDecl::Take => Bound::NeedsDefault,
        OptionDecl::UnwrapOrDefault => Bound::NeedsDefault,
        OptionDecl::CopyImpl => Bound::NeedsCopy,
        OptionDecl::CloneImpl => Bound::NeedsClone,
        OptionDecl::CopiedRef => Bound::NeedsCopy,
        OptionDecl::CopiedMut => Bound::NeedsCopy,
        OptionDecl::ClonedRef => Bound::NeedsClone,
        OptionDecl::ClonedMut => Bound::NeedsClone,
        OptionDecl::AsDeref => Bound::NeedsDeref,
        OptionDecl::AsDerefMut => Bound::NeedsDerefMut,
        _ => Bound::NoBound,
    }
}

#[verifier::when_used_as_spec(spec_option_bound)]
pub fn option_bound(d: OptionDecl) -> (r: Bound)
    ensures
        r == spec_option_bound(d),
{
    match d {
        OptionDecl::Take => Bound::NeedsDefault,
        OptionDecl::UnwrapOrDefault => Bound::NeedsDefault,
        OptionDecl::CopyImpl => Bound::NeedsCopy,
        OptionDecl::CloneImpl => Bound::NeedsClone,
        OptionDecl::CopiedRef => Bound::NeedsCopy,
        OptionDecl::CopiedMut => Bound::NeedsCopy,
        OptionDecl::ClonedRef => Bound::NeedsClone,
        OptionDecl::ClonedMut => Bound::NeedsClone,
        OptionDecl::AsDeref => Bound::NeedsDeref,
        OptionDecl::AsDerefMut => Bound::NeedsDerefMut,
        _ => Bound::NoBound,
    }
}

/// The generic-parameter gate of a result-like entry.
pub open spec fn spec_result_gate(d: ResultDecl) -> Gate {
    match d {
        ResultDecl::MapPayload => Gate::PrimaryGeneric,
        ResultDecl::MapOrElse => Gate::PrimaryGeneric,
        ResultDecl::And => Gate::PrimaryGeneric,
        ResultDecl::AndThen => Gate::PrimaryGeneric,
        ResultDecl::UnwrapOrDefault => Gate::PrimaryGeneric,
        ResultDecl::CopiedRef => Gate::PrimaryGeneric,
        ResultDecl::CopiedMut => Gate::PrimaryGeneric,
        ResultDecl::ClonedRef => Gate::PrimaryGeneric,
        ResultDecl::ClonedMut => Gate::PrimaryGeneric,
        ResultDecl::Transpose => Gate::PrimaryGeneric,
        ResultDecl::MapErr => Gate::SecondaryGeneric,
        ResultDecl::Or => Gate::SecondaryGeneric,
        ResultDecl::OrElse => Gate::SecondaryGeneric,
        ResultDecl::AsRef => Gate::BothGeneric,
        ResultDecl::AsMut => Gate::BothGeneric,
        ResultDecl::CopyImpl => Gate::BothGeneric,
        ResultDecl::CloneImpl => Gate::BothGeneric,
        ResultDecl::AsDeref => Gate::BothGeneric,
        ResultDecl::IntoIterImpl => Gate::BothGeneric,
        _ => Gate::Baseline,
    }
}

#[verifier::when_used_as_spec(spec_result_gate)]
pub fn result_gate(d: ResultDecl) -> (r: Gate)
    ensures
        r == spec_result_gate(d),
{
    match d {
        ResultDecl::MapPayload => Gate::PrimaryGeneric,
        ResultDecl::MapOrElse => Gate::PrimaryGeneric,
        ResultDecl::And => Gate::PrimaryGeneric,
        ResultDecl::AndThen => Gate::PrimaryGeneric,
        ResultDecl::UnwrapOrDefault => Gate::PrimaryGeneric,
        ResultDecl::CopiedRef => Gate::PrimaryGeneric,
        ResultDecl::CopiedMut => Gate::PrimaryGeneric,
        ResultDecl::ClonedRef => Gate::PrimaryGeneric,
        ResultDecl::ClonedMut => Gate::PrimaryGeneric,
        ResultDecl::Transpose => Gate::PrimaryGeneric,
        ResultDecl::MapErr => Gate::SecondaryGeneric,
        ResultDecl::Or => Gate::SecondaryGeneric,
        ResultDecl::OrElse => Gate::SecondaryGeneric,
        ResultDecl::AsRef => Gate::BothGeneric,
        ResultDecl::AsMut => Gate::BothGeneric,
        ResultDecl::CopyImpl => Gate::BothGeneric,
        ResultDecl::CloneImpl => Gate::BothGeneric,
        ResultDecl::AsDeref => Gate::BothGeneric,
        ResultDecl::IntoIterImpl => Gate::BothGeneric,
        _ => Gate::Baseline,
    }
}

/// The capability predicate a result-like entry puts on the primary
/// payload type.
pub open spec fn spec_result_primary_bound(d: ResultDecl) -> Bound {
    match d {
        ResultDecl::UnwrapErr => Bound::NeedsDebug,
        ResultDecl::UnwrapOrDefault => Bound::NeedsDefault,
        ResultDecl::CopiedRef => Bound::NeedsCopy,
        ResultDecl::CopiedMut => Bound::NeedsCopy,
        ResultDecl::ClonedRef => Bound::NeedsClone,
        ResultDecl::ClonedMut => Bound::NeedsClone,
        ResultDecl::CopyImpl => Bound::NeedsCopy,
        ResultDecl::CloneImpl => Bound::NeedsClone,
        ResultDecl::AsDeref => Bound::NeedsDeref,
        _ => Bound::NoBound,
    }
}

#[verifier::when_used_as_spec(spec_result_primary_bound)]
pub fn result_primary_bound(d: ResultDecl) -> (r: Bound)
    ensures
        r == spec_result_primary_bound(d),
{
    match d {
        ResultDecl::UnwrapErr => Bound::NeedsDebug,
        ResultDecl::UnwrapOrDefault => Bound::NeedsDefault,
        ResultDecl::CopiedRef => Bound::NeedsCopy,
        ResultDecl::CopiedMut => Bound::NeedsCopy,
        ResultDecl::ClonedRef => Bound::NeedsClone,
        ResultDecl::ClonedMut => Bound::NeedsClone,
        ResultDecl::CopyImpl => Bound::NeedsCopy,
        ResultDecl::CloneImpl => Bound::NeedsClone,
        ResultDecl::AsDeref => Bound::NeedsDeref,
        _ => Bound::NoBound,
    }
}

/// The capability predicate a result-like entry puts on the secondary
/// payload type.
pub open spec fn spec_result_secondary_bound(d: ResultDecl) -> Bound {
    match d {
        ResultDecl::Expect => Bound::NeedsDebug,
        ResultDecl::Unwrap => Bound::NeedsDebug,
        ResultDecl::CopyImpl => Bound::NeedsCopy,
        ResultDecl::CloneImpl => Bound::NeedsClone,
        ResultDecl::AsDeref => Bound::NeedsDeref,
        _ => Bound::NoBound,
    }
}

#[verifier::when_used_as_spec(spec_result_secondary_bound)]
pub fn result_secondary_bound(d: ResultDecl) -> (r: Bound)
    ensures
        r == spec_result_secondary_bound(d),
{
    match d {
        ResultDecl::Expect => Bound::NeedsDebug,
        ResultDecl::Unwrap => Bound::NeedsDebug,
        ResultDecl::CopyImpl => Bound::NeedsCopy,
        ResultDecl::CloneImpl => Bound::NeedsClone,
        ResultDecl::AsDeref => Bound::NeedsDeref,
        _ => Bound::NoBound,
    }
}

} // verus!
