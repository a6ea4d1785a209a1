//! The declaration-style entry points.
//!
//! A terse description — the enum's visibility, its name, and optionally a
//! pair of caller-chosen variant names — is turned into a full enum
//! declaration (annotated with the standard derived capabilities) followed
//! by the same implementation declarations the annotation style emits for
//! it.  A description that matches no recognized call form is rejected
//! with [`ShapeError::UnsupportedInputForm`] and nothing is emitted.

use vstd::pervasive::unreached;
use vstd::prelude::*;
use vstd::string::StringExecFns;

use crate::ast::{Capability, EnumDef, FieldShape, ShapeError, Variant};
use crate::expand::{expand, expansion_of, Expansion};
use crate::validate::accepts;

verus! {

/// A derived capability placed on a declaration-style enum.
#[derive(Clone, Copy, PartialEq, Eq, Structural, Debug)]
pub enum DeriveKind {
    /// Bitwise copying.
    Copying,
    /// Equality comparison.
    Equality,
    /// Partial and total ordering.
    Ordering,
    /// Debug formatting.
    DebugPrinting,
    /// Hashing.
    Hashing,
    /// Discriminant predicates, one per variant.
    DiscriminantPredicate,
}

/// The fixed derive list every declaration-style enum carries.
pub open spec fn standard_derives() -> Seq<DeriveKind> {
    seq![
        DeriveKind::Copying,
        DeriveKind::Equality,
        DeriveKind::Ordering,
        DeriveKind::DebugPrinting,
        DeriveKind::Hashing,
        DeriveKind::DiscriminantPredicate,
    ]
}

/// The terse description a declaration-style call hands over: the
/// requested visibility and the bare identifier list — the enum's name
/// alone, or the enum's name followed by the two variant names.
#[derive(Debug)]
pub struct DeclRequest {
    pub is_public: bool,
    pub idents: Vec<String>,
}

impl DeclRequest {
    /// The recognized call forms: one identifier (canonical variant
    /// names), or three (name plus two custom variant names).
    pub open spec fn recognized(self) -> bool {
        self.idents@.len() == 1 || self.idents@.len() == 3
    }
}

/// A declaration-style output: the enum declaration itself, its derive
/// list, and the implementation declarations for it.
#[derive(Debug)]
pub struct Declaration {
    pub derives: Vec<DeriveKind>,
    pub item: EnumDef,
    pub expansion: Expansion,
}

/// What a declaration built from `request` contains, shared by both
/// capabilities: the requested visibility and name, the standard derives,
/// no where-constraints, two variants named from the request or from the
/// given canonical pair, and the expansion of the declared enum itself.
pub open spec fn declaration_of(
    d: Declaration,
    capability: Capability,
    request: DeclRequest,
    canonical_primary: Seq<char>,
    canonical_secondary: Seq<char>,
) -> bool
    recommends
        request.recognized(),
{
    &&& d.derives@ == standard_derives()
    &&& d.item.is_public == request.is_public
    &&& d.item.name == request.idents@[0]
    &&& d.item.where_preds@.len() == 0
    &&& d.item.variants@.len() == 2
    &&& if request.idents@.len() == 3 {
        d.item.variants@[0].name == request.idents@[1] && d.item.variants@[1].name
            == request.idents@[2]
    } else {
        d.item.variants@[0].name@ == canonical_primary && d.item.variants@[1].name@
            == canonical_secondary
    }
    &&& accepts(capability, d.item)
    &&& expansion_of(d.expansion, capability, d.item)
}

/// Declares an option-like enum: one type parameter, a payload-bearing
/// primary variant and a unit secondary variant, named `Some` and `None`
/// unless the request carries custom names.
pub fn declare_option_like(request: &DeclRequest) -> (r: Result<Declaration, ShapeError>)
    ensures
        r is Ok <==> request.recognized(),
        !request.recognized() ==> r == Err::<Declaration, ShapeError>(
            ShapeError::UnsupportedInputForm,
        ),
        r matches Ok(d) ==> {
            &&& declaration_of(d, Capability::OptionLike, *request, "Some"@, "None"@)
            &&& d.item.params@.len() == 1
            &&& d.item.params@[0]@ == "T"@
            &&& d.item.variants@[0].fields matches FieldShape::Unnamed(t) && t@ == "T"@
            &&& d.item.variants@[1].fields is Unit
        },
{
    let primary_name: String;
    let secondary_name: String;
    if request.idents.len() == 3 {
        primary_name = request.idents[1].clone();
        secondary_name = request.idents[2].clone();
    } else if request.idents.len() == 1 {
        primary_name = String::from_str("Some");
        secondary_name = String::from_str("None");
    } else {
        return Err(ShapeError::UnsupportedInputForm);
    }
    let mut params: Vec<String> = Vec::new();
    params.push(String::from_str("T"));
    let mut variants: Vec<Variant> = Vec::new();
    variants.push(
        Variant { name: primary_name, fields: FieldShape::Unnamed(String::from_str("T")) },
    );
    variants.push(Variant { name: secondary_name, fields: FieldShape::Unit });
    let item = EnumDef {
        is_public: request.is_public,
        name: request.idents[0].clone(),
        params,
        where_preds: Vec::new(),
        variants,
    };
    let expansion = match expand(Capability::OptionLike, &item) {
        Ok(e) => e,
        Err(_) => {
            proof {
                assert(false);
            }
            unreached()
        },
    };
    Ok(Declaration { derives: standard_derive_list(), item, expansion })
}

/// Declares a result-like enum: two type parameters and two
/// payload-bearing variants, named `Ok` and `Err` unless the request
/// carries custom names.
pub fn declare_result_like(request: &DeclRequest) -> (r: Result<Declaration, ShapeError>)
    ensures
        r is Ok <==> request.recognized(),
        !request.recognized() ==> r == Err::<Declaration, ShapeError>(
            ShapeError::UnsupportedInputForm,
        ),
        r matches Ok(d) ==> {
            &&& declaration_of(d, Capability::ResultLike, *request, "Ok"@, "Err"@)
            &&& d.item.params@.len() == 2
            &&& d.item.params@[0]@ == "T"@
            &&& d.item.params@[1]@ == "E"@
            &&& d.item.variants@[0].fields matches FieldShape::Unnamed(t) && t@ == "T"@
            &&& d.item.variants@[1].fields matches FieldShape::Unnamed(e) && e@ == "E"@
        },
{
    let primary_name: String;
    let secondary_name: String;
    if request.idents.len() == 3 {
        primary_name = request.idents[1].clone();
        secondary_name = request.idents[2].clone();
    } else if request.idents.len() == 1 {
        primary_name = String::from_str("Ok");
        secondary_name = String::from_str("Err");
    } else {
        return Err(ShapeError::UnsupportedInputForm);
    }
    let mut params: Vec<String> = Vec::new();
    params.push(String::from_str("T"));
    params.push(String::from_str("E"));
    let mut variants: Vec<Variant> = Vec::new();
    variants.push(
        Variant { name: primary_name, fields: FieldShape::Unnamed(String::from_str("T")) },
    );
    variants.push(
        Variant { name: secondary_name, fields: FieldShape::Unnamed(String::from_str("E")) },
    );
    let item = EnumDef {
        is_public: request.is_public,
        name: request.idents[0].clone(),
        params,
        where_preds: Vec::new(),
        variants,
    };
    let expansion = match expand(Capability::ResultLike, &item) {
        Ok(e) => e,
        Err(_) => {
            proof {
                assert(false);
            }
            unreached()
        },
    };
    Ok(Declaration { derives: standard_derive_list(), item, expansion })
}

/// The standard derive list, as emitted data.
pub fn standard_derive_list() -> (r: Vec<DeriveKind>)
    ensures
        r@ == standard_derives(),
{
    let mut r: Vec<DeriveKind> = Vec::new();
    r.push(DeriveKind::Copying);
    r.push(DeriveKind::Equality);
    r.push(DeriveKind::Ordering);
    r.push(DeriveKind::DebugPrinting);
    r.push(DeriveKind::Hashing);
    r.push(DeriveKind::DiscriminantPredicate);
    proof {
        assert(r@ =~= standard_derives());
    }
    r
}

} // verus!
