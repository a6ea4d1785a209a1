//! Generation engine for user-defined Option-like, Result-like and Bool-like
//! enum types: it validates a two-variant enum shape, assigns the primary
//! (value-bearing) and secondary (absent/error) roles by declaration order,
//! classifies which payload types are free generic parameters, and emits the
//! gated catalog of method and trait-implementation declarations.
//!
//! The crate also provides the canonical two-variant types [`option::Opt`],
//! [`result::Res`] and [`boolean::Flag`], whose verified methods are the
//! semantic reference that every emitted method mirrors.

use vstd::prelude::*;

pub mod ast;
pub mod boolean;
pub mod catalog;
pub mod classify;
pub mod declare;
pub mod expand;
pub mod option;
pub mod result;
pub mod validate;

verus! {

/// Marker for a generated bool-like type: two unit variants standing for
/// true and false.
pub trait BoolLike where Self: Sized {

}

/// Marker for a generated option-like type; `SomeType` is the payload
/// carried by the primary variant.
pub trait OptionLike where Self: Sized {
    type SomeType;
}

/// Marker for a generated result-like type; `OkType` and `ErrType` are the
/// payloads of the primary and secondary variants.
pub trait ResultLike {
    type OkType;

    type ErrType;
}

} // verus!
