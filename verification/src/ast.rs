//! Token-level model of a candidate enum declaration, as the generation
//! engine receives it from the host macro system: variant names, field
//! shapes, payload type expressions and generic parameters, all in their
//! canonical textual form.

use vstd::prelude::*;

verus! {

/// The three supported generation capabilities.
#[derive(Clone, Copy, PartialEq, Eq, Structural, Debug)]
pub enum Capability {
    /// One unit variant standing for true, one for false.
    BoolLike,
    /// A payload-bearing present variant and an empty absent variant.
    OptionLike,
    /// A payload-bearing success variant and a payload-bearing failure variant.
    ResultLike,
}

/// The field arity of a variant, without its payload text.
#[derive(Clone, Copy, PartialEq, Eq, Structural, Debug)]
pub enum ShapeKind {
    /// No fields.
    Unit,
    /// Exactly one unnamed field.
    Unnamed,
}

/// A variant's field shape: no fields, or exactly one unnamed field whose
/// payload type expression is kept in canonical textual form.
#[derive(Debug)]
pub enum FieldShape {
    Unit,
    Unnamed(String),
}

impl FieldShape {
    /// The arity of this shape, with the payload text dropped.
    pub open spec fn spec_kind(&self) -> ShapeKind {
        match self {
            FieldShape::Unit => ShapeKind::Unit,
            FieldShape::Unnamed(_) => ShapeKind::Unnamed,
        }
    }

    /// The payload type expression, absent for a unit variant.
    pub open spec fn spec_payload(self) -> Option<String> {
        match self {
            FieldShape::Unit => None,
            FieldShape::Unnamed(t) => Some(t),
        }
    }

    #[verifier::when_used_as_spec(spec_kind)]
    pub fn kind(&self) -> (k: ShapeKind)
        ensures
            k == self.spec_kind(),
    {
        match self {
            FieldShape::Unit => ShapeKind::Unit,
            FieldShape::Unnamed(_) => ShapeKind::Unnamed,
        }
    }

    /// The payload type expression, cloned out; `None` for a unit variant.
    pub fn payload(&self) -> (p: Option<String>)
        ensures
            p == self.spec_payload(),
    {
        match self {
            FieldShape::Unit => None,
            FieldShape::Unnamed(t) => Some(t.clone()),
        }
    }

    /// An equal copy of this shape.
    pub fn duplicate(&self) -> (r: FieldShape)
        ensures
            r == *self,
    {
        match self {
            FieldShape::Unit => FieldShape::Unit,
            FieldShape::Unnamed(t) => FieldShape::Unnamed(t.clone()),
        }
    }
}

/// One declared variant: its name and its field shape.
#[derive(Debug)]
pub struct Variant {
    pub name: String,
    pub fields: FieldShape,
}

impl Variant {
    /// An equal copy of this variant.
    pub fn duplicate(&self) -> (r: Variant)
        ensures
            r == *self,
    {
        Variant { name: self.name.clone(), fields: self.fields.duplicate() }
    }
}

/// An elementwise copy of a list of identifiers or predicate texts.
pub fn clone_strings(v: &Vec<String>) -> (r: Vec<String>)
    ensures
        r@ == v@,
{
    let mut r: Vec<String> = Vec::new();
    let mut i: usize = 0;
    while i < v.len()
        invariant
            i <= v@.len(),
            r@.len() == i,
            forall|j: int| 0 <= j < i ==> r@[j] == v@[j],
        decreases v@.len() - i,
    {
        r.push(v[i].clone());
        i += 1;
    }
    proof {
        assert(r@ =~= v@);
    }
    r
}

/// A candidate enum declaration handed to the engine: its name, whether it
/// is public, its declared type-parameter identifiers, its where-clause
/// predicates in textual form, and its variants in declaration order.
#[derive(Debug)]
pub struct EnumDef {
    pub is_public: bool,
    pub name: String,
    pub params: Vec<String>,
    pub where_preds: Vec<String>,
    pub variants: Vec<Variant>,
}

/// Why an expansion was refused.  Every failure aborts the whole expansion:
/// no declaration is emitted alongside an error.
#[derive(Clone, Copy, PartialEq, Eq, Structural, Debug)]
pub enum ShapeError {
    /// The enum does not have exactly two variants.
    WrongVariantCount { expected: usize, actual: usize },
    /// The variant at `index` does not have the field arity the capability
    /// requires there.
    WrongVariantShape { index: usize, required: ShapeKind, found: ShapeKind },
    /// A declaration-style request matches none of the recognized call
    /// forms.
    UnsupportedInputForm,
}

} // verus!
