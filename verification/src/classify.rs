//! Generic-parameter classification for the result-like shape.
//!
//! A payload type expression counts as generic exactly when its canonical
//! textual form is one of the type-parameter identifiers declared on the
//! enum.  This is a textual, structural check, not semantic type equality:
//! a parameter spelled differently (parenthesized, behind an alias) is not
//! classified as generic.  The classification only gates which conditional
//! method groups are emitted.

use vstd::prelude::*;

use crate::validate::RoleAssignment;

verus! {

/// Which payload types of a validated result-like enum are literal
/// occurrences of its own declared type parameters.
#[derive(Clone, Copy, PartialEq, Eq, Structural, Debug)]
pub struct GenericClassification {
    pub primary_is_generic: bool,
    pub secondary_is_generic: bool,
}

/// Whether `ty` is, textually, one of the declared type-parameter
/// identifiers.
pub open spec fn is_declared_param(params: Seq<String>, ty: Seq<char>) -> bool {
    exists|i: int| 0 <= i < params.len() && params[i]@ == ty
}

/// Exact membership test of a payload type expression in the declared
/// type-parameter list.
pub fn contains_ident(params: &Vec<String>, ty: &String) -> (r: bool)
    ensures
        r == is_declared_param(params@, ty@),
{
    let mut i: usize = 0;
    while i < params.len()
        invariant
            i <= params@.len(),
            forall|j: int| 0 <= j < i ==> params@[j]@ != ty@,
        decreases params@.len() - i,
    {
        let candidate: &String = &params[i];
        if candidate.eq(ty) {
            return true;
        }
        i += 1;
    }
    false
}

/// The classification of a role assignment: a payload is generic when it
/// exists and its text is a declared type parameter.
pub open spec fn spec_classify(
    params: Seq<String>,
    primary_payload: Option<String>,
    secondary_payload: Option<String>,
) -> GenericClassification {
    GenericClassification {
        primary_is_generic: match primary_payload {
            Some(t) => is_declared_param(params, t@),
            None => false,
        },
        secondary_is_generic: match secondary_payload {
            Some(t) => is_declared_param(params, t@),
            None => false,
        },
    }
}

/// Classifies both payload type expressions against the declared
/// type-parameter identifiers.
pub fn classify(params: &Vec<String>, roles: &RoleAssignment) -> (r: GenericClassification)
    ensures
        r == spec_classify(params@, roles.primary_payload, roles.secondary_payload),
{
    let primary_is_generic = match &roles.primary_payload {
        Some(t) => contains_ident(params, t),
        None => false,
    };
    let secondary_is_generic = match &roles.secondary_payload {
        Some(t) => contains_ident(params, t),
        None => false,
    };
    GenericClassification { primary_is_generic, secondary_is_generic }
}

} // verus!
