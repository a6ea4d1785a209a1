//! Shape validation and role assignment.
//!
//! [`validate`] checks a candidate enum against the shape a capability
//! requires — exactly two variants, each with the right field arity — and
//! fails fast with a descriptive [`ShapeError`] before anything is emitted.
//! [`assign`] then binds the roles purely by position: the first declared
//! variant is primary (value/success), the second is secondary
//! (absent/error).

use vstd::prelude::*;

use crate::ast::{clone_strings, Capability, EnumDef, ShapeError, ShapeKind, Variant};

verus! {

/// The pair of field arities a capability requires, in declaration order.
pub open spec fn spec_required_shape(capability: Capability) -> (ShapeKind, ShapeKind) {
    match capability {
        Capability::BoolLike => (ShapeKind::Unit, ShapeKind::Unit),
        Capability::OptionLike => (ShapeKind::Unnamed, ShapeKind::Unit),
        Capability::ResultLike => (ShapeKind::Unnamed, ShapeKind::Unnamed),
    }
}

#[verifier::when_used_as_spec(spec_required_shape)]
pub fn required_shape(capability: Capability) -> (r: (ShapeKind, ShapeKind))
    ensures
        r == spec_required_shape(capability),
{
    match capability {
        Capability::BoolLike => (ShapeKind::Unit, ShapeKind::Unit),
        Capability::OptionLike => (ShapeKind::Unnamed, ShapeKind::Unit),
        Capability::ResultLike => (ShapeKind::Unnamed, ShapeKind::Unnamed),
    }
}

/// The validated input: the enum's name, generics and where-constraints,
/// and its two variants, already split into declaration order.  Holding the
/// variants as two fields makes the two-variant invariant structural.
#[derive(Debug)]
pub struct EnumShape {
    pub is_public: bool,
    pub name: String,
    pub params: Vec<String>,
    pub where_preds: Vec<String>,
    pub primary: Variant,
    pub secondary: Variant,
}

impl EnumShape {
    /// Both variants have the field arity the capability requires.
    pub open spec fn conforms(self, capability: Capability) -> bool {
        &&& self.primary.fields.spec_kind() == spec_required_shape(capability).0
        &&& self.secondary.fields.spec_kind() == spec_required_shape(capability).1
    }
}

/// Whether the validator accepts this declaration for this capability.
pub open spec fn accepts(capability: Capability, input: EnumDef) -> bool {
    &&& input.variants@.len() == 2
    &&& input.variants@[0].fields.spec_kind() == spec_required_shape(capability).0
    &&& input.variants@[1].fields.spec_kind() == spec_required_shape(capability).1
}

/// The shape carries over the declaration unchanged: same name, same
/// generics, same where-constraints, and the two variants in declaration
/// order.
pub open spec fn shape_of_input(shape: EnumShape, input: EnumDef) -> bool {
    &&& shape.is_public == input.is_public
    &&& shape.name == input.name
    &&& shape.params@ == input.params@
    &&& shape.where_preds@ == input.where_preds@
    &&& shape.primary == input.variants@[0]
    &&& shape.secondary == input.variants@[1]
}

/// The diagnostic a rejected declaration earns: the first violation in
/// checking order — variant count first, then the first variant's shape,
/// then the second's.
pub open spec fn rejection(capability: Capability, input: EnumDef) -> ShapeError
    recommends
        !accepts(capability, input),
{
    if input.variants@.len() != 2 {
        ShapeError::WrongVariantCount { expected: 2, actual: input.variants@.len() as usize }
    } else if input.variants@[0].fields.spec_kind() != spec_required_shape(capability).0 {
        ShapeError::WrongVariantShape {
            index: 0,
            required: spec_required_shape(capability).0,
            found: input.variants@[0].fields.spec_kind(),
        }
    } else {
        ShapeError::WrongVariantShape {
            index: 1,
            required: spec_required_shape(capability).1,
            found: input.variants@[1].fields.spec_kind(),
        }
    }
}

/// Confirms that the declaration has exactly two variants and that each
/// variant's field shape matches what the capability requires, in that
/// order; the first violation found is the one reported.
pub fn validate(capability: Capability, input: &EnumDef) -> (r: Result<EnumShape, ShapeError>)
    ensures
        r is Ok <==> accepts(capability, *input),
        r matches Ok(shape) ==> shape_of_input(shape, *input) && shape.conforms(capability),
        !accepts(capability, *input) ==> r == Err::<EnumShape, ShapeError>(
            rejection(capability, *input),
        ),
{
    let n = input.variants.len();
    if n != 2 {
        return Err(ShapeError::WrongVariantCount { expected: 2, actual: n });
    }
    let (required_first, required_second) = required_shape(capability);
    let found_first = input.variants[0].fields.kind();
    if found_first != required_first {
        return Err(
            ShapeError::WrongVariantShape {
                index: 0,
                required: required_first,
                found: found_first,
            },
        );
    }
    let found_second = input.variants[1].fields.kind();
    if found_second != required_second {
        return Err(
            ShapeError::WrongVariantShape {
                index: 1,
                required: required_second,
                found: found_second,
            },
        );
    }
    Ok(
        EnumShape {
            is_public: input.is_public,
            name: input.name.clone(),
            params: clone_strings(&input.params),
            where_preds: clone_strings(&input.where_preds),
            primary: input.variants[0].duplicate(),
            secondary: input.variants[1].duplicate(),
        },
    )
}

/// The two roles read off a validated shape: the variants' names and their
/// payload type expressions, absent for unit variants.
#[derive(Debug)]
pub struct RoleAssignment {
    pub primary_name: String,
    pub secondary_name: String,
    pub primary_payload: Option<String>,
    pub secondary_payload: Option<String>,
}

/// Role assignment is purely positional: first declared variant is primary.
pub open spec fn spec_assign(shape: EnumShape) -> RoleAssignment {
    RoleAssignment {
        primary_name: shape.primary.name,
        secondary_name: shape.secondary.name,
        primary_payload: shape.primary.fields.spec_payload(),
        secondary_payload: shape.secondary.fields.spec_payload(),
    }
}

/// Binds the primary role to the variant at index 0 and the secondary role
/// to the variant at index 1, extracting each payload type expression.  A
/// pure function: once [`validate`] has accepted the input there is no
/// failure path.
pub fn assign(shape: &EnumShape) -> (r: RoleAssignment)
    ensures
        r == spec_assign(*shape),
{
    RoleAssignment {
        primary_name: shape.primary.name.clone(),
        secondary_name: shape.secondary.name.clone(),
        primary_payload: shape.primary.fields.payload(),
        secondary_payload: shape.secondary.fields.payload(),
    }
}

} // verus!
