//! The method-set emitter and the annotation-style entry points.
//!
//! Given a validated shape, its role assignment and its classification, the
//! emitter produces the fixed, ordered catalog of declarations for the
//! requested capability, with each conditional group present exactly when
//! its generic-parameter gate holds.  The emitter is referentially
//! transparent: the same inputs always produce the same declarations.

use vstd::prelude::*;
use vstd::string::StringExecFns;

use crate::ast::{Capability, EnumDef, ShapeError};
use crate::catalog::{spec_option_needs_generics, spec_result_gate, BoolDecl, Gate, OptionDecl, ResultDecl};
use crate::classify::{classify, spec_classify, GenericClassification};
use crate::validate::{accepts, assign, rejection, validate, RoleAssignment};

verus! {

/// The declarations emitted for a bool-like type, in emission order.
pub open spec fn bool_catalog() -> Seq<BoolDecl> {
    seq![
        BoolDecl::ToBool,
        BoolDecl::FromBool,
        BoolDecl::ThenSome,
        BoolDecl::ThenWith,
        BoolDecl::FromBoolImpl,
        BoolDecl::IntoBoolImpl,
    ]
}

/// The option-like declarations emitted for every accepted input, in
/// emission order.
pub open spec fn option_baseline() -> Seq<OptionDecl> {
    seq![
        OptionDecl::MarkerImpl,
        OptionDecl::FromOption,
        OptionDecl::IntoOption,
        OptionDecl::AsOption,
        OptionDecl::AsOptionMut,
        OptionDecl::Expect,
        OptionDecl::Unwrap,
        OptionDecl::UnwrapOr,
        OptionDecl::UnwrapOrElse,
        OptionDecl::OkOr,
        OptionDecl::OkOrElse,
        OptionDecl::Filter,
        OptionDecl::Or,
        OptionDecl::OrElse,
        OptionDecl::MapOr,
        OptionDecl::Xor,
        OptionDecl::GetOrInsert,
        OptionDecl::GetOrInsertWith,
        OptionDecl::Replace,
        OptionDecl::FromStdOptionImpl,
        OptionDecl::IntoStdOptionImpl,
        OptionDecl::FromPayloadImpl,
        OptionDecl::DefaultImpl,
        OptionDecl::IntoIterImpl,
    ]
}

/// The option-like declarations emitted only while the enum retains at
/// least one free generic parameter, in emission order.
pub open spec fn option_conditional() -> Seq<OptionDecl> {
    seq![
        OptionDecl::AsRef,
        OptionDecl::AsMut,
        OptionDecl::MapPayload,
        OptionDecl::MapOrElse,
        OptionDecl::Iter,
        OptionDecl::IterMut,
        OptionDecl::And,
        OptionDecl::AndThen,
        OptionDecl::Zip,
        OptionDecl::Take,
        OptionDecl::UnwrapOrDefault,
        OptionDecl::CopyImpl,
        OptionDecl::CloneImpl,
        OptionDecl::CopiedRef,
        OptionDecl::CopiedMut,
        OptionDecl::ClonedRef,
        OptionDecl::ClonedMut,
        OptionDecl::AsDeref,
        OptionDecl::AsDerefMut,
        OptionDecl::Transpose,
    ]
}

/// Everything emitted for an option-like type, as gated by whether the
/// enum retains a free generic parameter.
pub open spec fn spec_emit_option(has_generics: bool) -> Seq<OptionDecl> {
    if has_generics {
        option_baseline() + option_conditional()
    } else {
        option_baseline()
    }
}

/// The result-like declarations emitted for every accepted input, in
/// emission order.
pub open spec fn result_baseline() -> Seq<ResultDecl> {
    seq![
        ResultDecl::MarkerImpl,
        ResultDecl::FromResult,
        ResultDecl::IntoResult,
        ResultDecl::AsResult,
        ResultDecl::AsResultMut,
        ResultDecl::MapOr,
        ResultDecl::UnwrapOr,
        ResultDecl::UnwrapOrElse,
        ResultDecl::FromStdResultImpl,
        ResultDecl::IntoStdResultImpl,
        ResultDecl::Expect,
        ResultDecl::Unwrap,
        ResultDecl::UnwrapErr,
    ]
}

/// The result-like declarations gated on the primary payload being a free
/// type parameter, in emission order.
pub open spec fn result_primary_extra() -> Seq<ResultDecl> {
    seq![
        ResultDecl::MapPayload,
        ResultDecl::MapOrElse,
        ResultDecl::And,
        ResultDecl::AndThen,
        ResultDecl::UnwrapOrDefault,
        ResultDecl::CopiedRef,
        ResultDecl::CopiedMut,
        ResultDecl::ClonedRef,
        ResultDecl::ClonedMut,
        ResultDecl::Transpose,
    ]
}

/// The result-like declarations gated on the secondary payload being a
/// free type parameter, in emission order.
pub open spec fn result_secondary_extra() -> Seq<ResultDecl> {
    seq![ResultDecl::MapErr, ResultDecl::Or, ResultDecl::OrElse]
}

/// The result-like declarations gated on both payloads being free type
/// parameters, in emission order.
pub open spec fn result_both_extra() -> Seq<ResultDecl> {
    seq![
        ResultDecl::AsRef,
        ResultDecl::AsMut,
        ResultDecl::CopyImpl,
        ResultDecl::CloneImpl,
        ResultDecl::AsDeref,
        ResultDecl::IntoIterImpl,
    ]
}

/// Everything emitted for a result-like type under a classification: the
/// baseline, then each conditional group whose gate holds.
pub open spec fn spec_emit_result(c: GenericClassification) -> Seq<ResultDecl> {
    result_baseline() + (if c.primary_is_generic {
        result_primary_extra()
    } else {
        Seq::<ResultDecl>::empty()
    }) + (if c.secondary_is_generic {
        result_secondary_extra()
    } else {
        Seq::<ResultDecl>::empty()
    }) + (if c.primary_is_generic && c.secondary_is_generic {
        result_both_extra()
    } else {
        Seq::<ResultDecl>::empty()
    })
}

/// Emits the bool-like catalog.
pub fn emit_bool() -> (r: Vec<BoolDecl>)
    ensures
        r@ == bool_catalog(),
{
    let mut r: Vec<BoolDecl> = Vec::new();
    r.push(BoolDecl::ToBool);
    r.push(BoolDecl::FromBool);
    r.push(BoolDecl::ThenSome);
    r.push(BoolDecl::ThenWith);
    r.push(BoolDecl::FromBoolImpl);
    r.push(BoolDecl::IntoBoolImpl);
    proof {
        assert(r@ =~= bool_catalog());
    }
    r
}

/// Emits the option-like catalog: always the baseline, and the conditional
/// group exactly when the enum retains a free generic parameter.
pub fn emit_option(has_generics: bool) -> (r: Vec<OptionDecl>)
    ensures
        r@ == spec_emit_option(has_generics),
{
    let mut r: Vec<OptionDecl> = Vec::new();
    r.push(OptionDecl::MarkerImpl);
    r.push(OptionDecl::FromOption);
    r.push(OptionDecl::IntoOption);
    r.push(OptionDecl::AsOption);
    r.push(OptionDecl::AsOptionMut);
    r.push(OptionDecl::Expect);
    r.push(OptionDecl::Unwrap);
    r.push(OptionDecl::UnwrapOr);
    r.push(OptionDecl::UnwrapOrElse);
    r.push(OptionDecl::OkOr);
    r.push(OptionDecl::OkOrElse);
    r.push(OptionDecl::Filter);
    r.push(OptionDecl::Or);
    r.push(OptionDecl::OrElse);
    r.push(OptionDecl::MapOr);
    r.push(OptionDecl::Xor);
    r.push(OptionDecl::GetOrInsert);
    r.push(OptionDecl::GetOrInsertWith);
    r.push(OptionDecl::Replace);
    r.push(OptionDecl::FromStdOptionImpl);
    r.push(OptionDecl::IntoStdOptionImpl);
    r.push(OptionDecl::FromPayloadImpl);
    r.push(OptionDecl::DefaultImpl);
    r.push(OptionDecl::IntoIterImpl);
    proof {
        assert(r@ =~= option_baseline());
    }
    if has_generics {
        r.push(OptionDecl::AsRef);
        r.push(OptionDecl::AsMut);
        r.push(OptionDecl::MapPayload);
        r.push(OptionDecl::MapOrElse);
        r.push(OptionDecl::Iter);
        r.push(OptionDecl::IterMut);
        r.push(OptionDecl::And);
        r.push(OptionDecl::AndThen);
        r.push(OptionDecl::Zip);
        r.push(OptionDecl::Take);
        r.push(OptionDecl::UnwrapOrDefault);
        r.push(OptionDecl::CopyImpl);
        r.push(OptionDecl::CloneImpl);
        r.push(OptionDecl::CopiedRef);
        r.push(OptionDecl::CopiedMut);
        r.push(OptionDecl::ClonedRef);
        r.push(OptionDecl::ClonedMut);
        r.push(OptionDecl::AsDeref);
        r.push(OptionDecl::AsDerefMut);
        r.push(OptionDecl::Transpose);
        proof {
            assert(r@ =~= option_baseline() + option_conditional());
        }
    }
    r
}

/// Emits the result-like catalog under a classification: the baseline,
/// then each conditional group whose gate holds, in emission order.
pub fn emit_result(c: GenericClassification) -> (r: Vec<ResultDecl>)
    ensures
        r@ == spec_emit_result(c),
{
    let mut r: Vec<ResultDecl> = Vec::new();
    r.push(ResultDecl::MarkerImpl);
    r.push(ResultDecl::FromResult);
    r.push(ResultDecl::IntoResult);
    r.push(ResultDecl::AsResult);
    r.push(ResultDecl::AsResultMut);
    r.push(ResultDecl::MapOr);
    r.push(ResultDecl::UnwrapOr);
    r.push(ResultDecl::UnwrapOrElse);
    r.push(ResultDecl::FromStdResultImpl);
    r.push(ResultDecl::IntoStdResultImpl);
    r.push(ResultDecl::Expect);
    r.push(ResultDecl::Unwrap);
    r.push(ResultDecl::UnwrapErr);
    proof {
        assert(r@ =~= result_baseline());
    }
    if c.primary_is_generic {
        r.push(ResultDecl::MapPayload);
        r.push(ResultDecl::MapOrElse);
        r.push(ResultDecl::And);
        r.push(ResultDecl::AndThen);
        r.push(ResultDecl::UnwrapOrDefault);
        r.push(ResultDecl::CopiedRef);
        r.push(ResultDecl::CopiedMut);
        r.push(ResultDecl::ClonedRef);
        r.push(ResultDecl::ClonedMut);
        r.push(ResultDecl::Transpose);
    }
    if c.secondary_is_generic {
        r.push(ResultDecl::MapErr);
        r.push(ResultDecl::Or);
        r.push(ResultDecl::OrElse);
    }
    if c.primary_is_generic && c.secondary_is_generic {
        r.push(ResultDecl::AsRef);
        r.push(ResultDecl::AsMut);
        r.push(ResultDecl::CopyImpl);
        r.push(ResultDecl::CloneImpl);
        r.push(ResultDecl::AsDeref);
        r.push(ResultDecl::IntoIterImpl);
    }
    proof {
        assert(r@ =~= spec_emit_result(c));
    }
    r
}

/// Catalog data and emission agree for option-like entries: the baseline
/// holds exactly the entries that are emitted regardless of generics, and
/// the conditional group exactly those that need a free generic parameter.
pub proof fn lemma_option_gating(d: OptionDecl)
    ensures
        option_baseline().contains(d) <==> !spec_option_needs_generics(d),
        option_conditional().contains(d) <==> spec_option_needs_generics(d),
{
    match d {
        OptionDecl::MarkerImpl => { assert(option_baseline()[0] == OptionDecl::MarkerImpl); },
        OptionDecl::FromOption => { assert(option_baseline()[1] == OptionDecl::FromOption); },
        OptionDecl::IntoOption => { assert(option_baseline()[2] == OptionDecl::IntoOption); },
        OptionDecl::AsOption => { assert(option_baseline()[3] == OptionDecl::AsOption); },
        OptionDecl::AsOptionMut => { assert(option_baseline()[4] == OptionDecl::AsOptionMut); },
        OptionDecl::Expect => { assert(option_baseline()[5] == OptionDecl::Expect); },
        OptionDecl::Unwrap => { assert(option_baseline()[6] == OptionDecl::Unwrap); },
        OptionDecl::UnwrapOr => { assert(option_baseline()[7] == OptionDecl::UnwrapOr); },
        OptionDecl::UnwrapOrElse => { assert(option_baseline()[8] == OptionDecl::UnwrapOrElse); },
        OptionDecl::OkOr => { assert(option_baseline()[9] == OptionDecl::OkOr); },
        OptionDecl::OkOrElse => { assert(option_baseline()[10] == OptionDecl::OkOrElse); },
        OptionDecl::Filter => { assert(option_baseline()[11] == OptionDecl::Filter); },
        OptionDecl::Or => { assert(option_baseline()[12] == OptionDecl::Or); },
        OptionDecl::OrElse => { assert(option_baseline()[13] == OptionDecl::OrElse); },
        OptionDecl::MapOr => { assert(option_baseline()[14] == OptionDecl::MapOr); },
        OptionDecl::Xor => { assert(option_baseline()[15] == OptionDecl::Xor); },
        OptionDecl::GetOrInsert => { assert(option_baseline()[16] == OptionDecl::GetOrInsert); },
        OptionDecl::GetOrInsertWith => { assert(option_baseline()[17] == OptionDecl::GetOrInsertWith); },
        OptionDecl::Replace => { assert(option_baseline()[18] == OptionDecl::Replace); },
        OptionDecl::FromStdOptionImpl => { assert(option_baseline()[19] == OptionDecl::FromStdOptionImpl); },
        OptionDecl::IntoStdOptionImpl => { assert(option_baseline()[20] == OptionDecl::IntoStdOptionImpl); },
        OptionDecl::FromPayloadImpl => { assert(option_baseline()[21] == OptionDecl::FromPayloadImpl); },
        OptionDecl::DefaultImpl => { assert(option_baseline()[22] == OptionDecl::DefaultImpl); },
        OptionDecl::IntoIterImpl => { assert(option_baseline()[23] == OptionDecl::IntoIterImpl); },
        OptionDecl::AsRef => { assert(option_conditional()[0] == OptionDecl::AsRef); },
        OptionDecl::AsMut => { assert(option_conditional()[1] == OptionDecl::AsMut); },
        OptionDecl::MapPayload => { assert(option_conditional()[2] == OptionDecl::MapPayload); },
        OptionDecl::MapOrElse => { assert(option_conditional()[3] == OptionDecl::MapOrElse); },
        OptionDecl::Iter => { assert(option_conditional()[4] == OptionDecl::Iter); },
        OptionDecl::IterMut => { assert(option_conditional()[5] == OptionDecl::IterMut); },
        OptionDecl::And => { assert(option_conditional()[6] == OptionDecl::And); },
        OptionDecl::AndThen => { assert(option_conditional()[7] == OptionDecl::AndThen); },
        OptionDecl::Zip => { assert(option_conditional()[8] == OptionDecl::Zip); },
        OptionDecl::Take => { assert(option_conditional()[9] == OptionDecl::Take); },
        OptionDecl::UnwrapOrDefault => { assert(option_conditional()[10] == OptionDecl::UnwrapOrDefault); },
        OptionDecl::CopyImpl => { assert(option_conditional()[11] == OptionDecl::CopyImpl); },
        OptionDecl::CloneImpl => { assert(option_conditional()[12] == OptionDecl::CloneImpl); },
        OptionDecl::CopiedRef => { assert(option_conditional()[13] == OptionDecl::CopiedRef); },
        OptionDecl::CopiedMut => { assert(option_conditional()[14] == OptionDecl::CopiedMut); },
        OptionDecl::ClonedRef => { assert(option_conditional()[15] == OptionDecl::ClonedRef); },
        OptionDecl::ClonedMut => { assert(option_conditional()[16] == OptionDecl::ClonedMut); },
        OptionDecl::AsDeref => { assert(option_conditional()[17] == OptionDecl::AsDeref); },
        OptionDecl::AsDerefMut => { assert(option_conditional()[18] == OptionDecl::AsDerefMut); },
        OptionDecl::Transpose => { assert(option_conditional()[19] == OptionDecl::Transpose); },
    }
    assert forall|i: int| 0 <= i < option_baseline().len() implies !spec_option_needs_generics(#[trigger] option_baseline()[i]) by {
        if i == 0 {
        } else if i == 1 {
        } else if i == 2 {
        } else if i == 3 {
        } else if i == 4 {
        } else if i == 5 {
        } else if i == 6 {
        } else if i == 7 {
        } else if i == 8 {
        } else if i == 9 {
        } else if i == 10 {
        } else if i == 11 {
        } else if i == 12 {
        } else if i == 13 {
        } else if i == 14 {
        } else if i == 15 {
        } else if i == 16 {
        } else if i == 17 {
        } else if i == 18 {
        } else if i == 19 {
        } else if i == 20 {
        } else if i == 21 {
        } else if i == 22 {
        } else if i == 23 {
        }
    }
    assert forall|i: int| 0 <= i < option_conditional().len() implies spec_option_needs_generics(#[trigger] option_conditional()[i]) by {
        if i == 0 {
        } else if i == 1 {
        } else if i == 2 {
        } else if i == 3 {
        } else if i == 4 {
        } else if i == 5 {
        } else if i == 6 {
        } else if i == 7 {
        } else if i == 8 {
        } else if i == 9 {
        } else if i == 10 {
        } else if i == 11 {
        } else if i == 12 {
        } else if i == 13 {
        } else if i == 14 {
        } else if i == 15 {
        } else if i == 16 {
        } else if i == 17 {
        } else if i == 18 {
        } else if i == 19 {
        }
    }
}

/// An option-like entry is emitted exactly when its gate allows it: always
/// for baseline entries, only with a free generic parameter for the rest.
pub proof fn lemma_emit_option_gating(has_generics: bool, d: OptionDecl)
    ensures
        spec_emit_option(has_generics).contains(d) <==> (!spec_option_needs_generics(d)
            || has_generics),
{
    lemma_option_gating(d);
    if has_generics {
        assert(spec_emit_option(has_generics).contains(d) <==> (option_baseline().contains(d)
            || option_conditional().contains(d))) by {
            lemma_concat_contains(option_baseline(), option_conditional(), d);
        }
    }
}

/// Membership in a concatenation is membership in either part.
pub proof fn lemma_concat_contains<A>(a: Seq<A>, b: Seq<A>, x: A)
    ensures
        (a + b).contains(x) <==> (a.contains(x) || b.contains(x)),
{
    if a.contains(x) {
        let i = choose|i: int| 0 <= i < a.len() && a[i] == x;
        assert((a + b)[i] == x);
    }
    if b.contains(x) {
        let i = choose|i: int| 0 <= i < b.len() && b[i] == x;
        assert((a + b)[a.len() + i] == x);
    }
    if (a + b).contains(x) {
        let i = choose|i: int| 0 <= i < (a + b).len() && (a + b)[i] == x;
        if i < a.len() {
            assert(a[i] == x);
        } else {
            assert(b[i - a.len()] == x);
        }
    }
}

/// Catalog data and emission agree for result-like entries: each group
/// holds exactly the entries whose gate names it.
pub proof fn lemma_result_gating(d: ResultDecl)
    ensures
        result_baseline().contains(d) <==> spec_result_gate(d) == Gate::Baseline,
        result_primary_extra().contains(d) <==> spec_result_gate(d) == Gate::PrimaryGeneric,
        result_secondary_extra().contains(d) <==> spec_result_gate(d) == Gate::SecondaryGeneric,
        result_both_extra().contains(d) <==> spec_result_gate(d) == Gate::BothGeneric,
{
    match d {
        ResultDecl::MarkerImpl => { assert(result_baseline()[0] == ResultDecl::MarkerImpl); },
        ResultDecl::FromResult => { assert(result_baseline()[1] == ResultDecl::FromResult); },
        ResultDecl::IntoResult => { assert(result_baseline()[2] == ResultDecl::IntoResult); },
        ResultDecl::AsResult => { assert(result_baseline()[3] == ResultDecl::AsResult); },
        ResultDecl::AsResultMut => { assert(result_baseline()[4] == ResultDecl::AsResultMut); },
        ResultDecl::MapOr => { assert(result_baseline()[5] == ResultDecl::MapOr); },
        ResultDecl::UnwrapOr => { assert(result_baseline()[6] == ResultDecl::UnwrapOr); },
        ResultDecl::UnwrapOrElse => { assert(result_baseline()[7] == ResultDecl::UnwrapOrElse); },
        ResultDecl::FromStdResultImpl => { assert(result_baseline()[8] == ResultDecl::FromStdResultImpl); },
        ResultDecl::IntoStdResultImpl => { assert(result_baseline()[9] == ResultDecl::IntoStdResultImpl); },
        ResultDecl::Expect => { assert(result_baseline()[10] == ResultDecl::Expect); },
        ResultDecl::Unwrap => { assert(result_baseline()[11] == ResultDecl::Unwrap); },
        ResultDecl::UnwrapErr => { assert(result_baseline()[12] == ResultDecl::UnwrapErr); },
        ResultDecl::MapPayload => { assert(result_primary_extra()[0] == ResultDecl::MapPayload); },
        ResultDecl::MapOrElse => { assert(result_primary_extra()[1] == ResultDecl::MapOrElse); },
        ResultDecl::And => { assert(result_primary_extra()[2] == ResultDecl::And); },
        ResultDecl::AndThen => { assert(result_primary_extra()[3] == ResultDecl::AndThen); },
        ResultDecl::UnwrapOrDefault => { assert(result_primary_extra()[4] == ResultDecl::UnwrapOrDefault); },
        ResultDecl::CopiedRef => { assert(result_primary_extra()[5] == ResultDecl::CopiedRef); },
        ResultDecl::CopiedMut => { assert(result_primary_extra()[6] == ResultDecl::CopiedMut); },
        ResultDecl::ClonedRef => { assert(result_primary_extra()[7] == ResultDecl::ClonedRef); },
        ResultDecl::ClonedMut => { assert(result_primary_extra()[8] == ResultDecl::ClonedMut); },
        ResultDecl::Transpose => { assert(result_primary_extra()[9] == ResultDecl::Transpose); },
        ResultDecl::MapErr => { assert(result_secondary_extra()[0] == ResultDecl::MapErr); },
        ResultDecl::Or => { assert(result_secondary_extra()[1] == ResultDecl::Or); },
        ResultDecl::OrElse => { assert(result_secondary_extra()[2] == ResultDecl::OrElse); },
        ResultDecl::AsRef => { assert(result_both_extra()[0] == ResultDecl::AsRef); },
        ResultDecl::AsMut => { assert(result_both_extra()[1] == ResultDecl::AsMut); },
        ResultDecl::CopyImpl => { assert(result_both_extra()[2] == ResultDecl::CopyImpl); },
        ResultDecl::CloneImpl => { assert(result_both_extra()[3] == ResultDecl::CloneImpl); },
        ResultDecl::AsDeref => { assert(result_both_extra()[4] == ResultDecl::AsDeref); },
        ResultDecl::IntoIterImpl => { assert(result_both_extra()[5] == ResultDecl::IntoIterImpl); },
    }
    assert forall|i: int| 0 <= i < result_baseline().len() implies spec_result_gate(#[trigger] result_baseline()[i]) == Gate::Baseline by {
        if i == 0 {
        } else if i == 1 {
        } else if i == 2 {
        } else if i == 3 {
        } else if i == 4 {
        } else if i == 5 {
        } else if i == 6 {
        } else if i == 7 {
        } else if i == 8 {
        } else if i == 9 {
        } else if i == 10 {
        } else if i == 11 {
        } else if i == 12 {
        }
    }
    assert forall|i: int| 0 <= i < result_primary_extra().len() implies spec_result_gate(#[trigger] result_primary_extra()[i]) == Gate::PrimaryGeneric by {
        if i == 0 {
        } else if i == 1 {
        } else if i == 2 {
        } else if i == 3 {
        } else if i == 4 {
        } else if i == 5 {
        } else if i == 6 {
        } else if i == 7 {
        } else if i == 8 {
        } else if i == 9 {
        }
    }
    assert forall|i: int| 0 <= i < result_secondary_extra().len() implies spec_result_gate(#[trigger] result_secondary_extra()[i]) == Gate::SecondaryGeneric by {
        if i == 0 {
        } else if i == 1 {
        } else if i == 2 {
        }
    }
    assert forall|i: int| 0 <= i < result_both_extra().len() implies spec_result_gate(#[trigger] result_both_extra()[i]) == Gate::BothGeneric by {
        if i == 0 {
        } else if i == 1 {
        } else if i == 2 {
        } else if i == 3 {
        } else if i == 4 {
        } else if i == 5 {
        }
    }
}

/// A result-like entry is emitted under a classification exactly when its
/// gate holds: baseline entries always, each conditional entry only with
/// its generic side(s) free.
pub proof fn lemma_emit_result_gating(c: GenericClassification, d: ResultDecl)
    ensures
        spec_emit_result(c).contains(d) <==> (spec_result_gate(d) == Gate::Baseline || (
        spec_result_gate(d) == Gate::PrimaryGeneric && c.primary_is_generic) || (spec_result_gate(
            d,
        ) == Gate::SecondaryGeneric && c.secondary_is_generic) || (spec_result_gate(d)
            == Gate::BothGeneric && c.primary_is_generic && c.secondary_is_generic)),
{
    lemma_result_gating(d);
    let p = if c.primary_is_generic {
        result_primary_extra()
    } else {
        Seq::<ResultDecl>::empty()
    };
    let s = if c.secondary_is_generic {
        result_secondary_extra()
    } else {
        Seq::<ResultDecl>::empty()
    };
    let b = if c.primary_is_generic && c.secondary_is_generic {
        result_both_extra()
    } else {
        Seq::<ResultDecl>::empty()
    };
    lemma_concat_contains(result_baseline(), p, d);
    lemma_concat_contains(result_baseline() + p, s, d);
    lemma_concat_contains(result_baseline() + p + s, b, d);
}

/// Whether an option-like declaration list holds the given entry.
pub fn option_decls_contain(decls: &Vec<OptionDecl>, d: OptionDecl) -> (r: bool)
    ensures
        r == decls@.contains(d),
{
    let mut i: usize = 0;
    while i < decls.len()
        invariant
            i <= decls@.len(),
            forall|j: int| 0 <= j < i ==> decls@[j] != d,
        decreases decls@.len() - i,
    {
        if decls[i] == d {
            return true;
        }
        i += 1;
    }
    false
}

/// Whether a result-like declaration list holds the given entry.
pub fn result_decls_contain(decls: &Vec<ResultDecl>, d: ResultDecl) -> (r: bool)
    ensures
        r == decls@.contains(d),
{
    let mut i: usize = 0;
    while i < decls.len()
        invariant
            i <= decls@.len(),
            forall|j: int| 0 <= j < i ==> decls@[j] != d,
        decreases decls@.len() - i,
    {
        if decls[i] == d {
            return true;
        }
        i += 1;
    }
    false
}

/// The emitted declaration set, tagged by the capability that produced it.
#[derive(Debug)]
pub enum DeclSet {
    BoolLike(Vec<BoolDecl>),
    OptionLike(Vec<OptionDecl>),
    ResultLike(Vec<ResultDecl>),
}

/// One complete expansion: everything the host macro system needs to
/// render the output tokens — the names and generics to substitute, the
/// role assignment, the private scope name, and the gated declaration
/// list.
#[derive(Debug)]
pub struct Expansion {
    pub is_public: bool,
    pub name: String,
    pub params: Vec<String>,
    pub where_preds: Vec<String>,
    pub roles: RoleAssignment,
    pub scope: String,
    pub decls: DeclSet,
}

/// The capability's name, as embedded in diagnostics and scope names.
pub open spec fn spec_capability_name(capability: Capability) -> Seq<char> {
    match capability {
        Capability::BoolLike => "BoolLike"@,
        Capability::OptionLike => "OptionLike"@,
        Capability::ResultLike => "ResultLike"@,
    }
}

pub fn capability_name(capability: Capability) -> (r: &'static str)
    ensures
        r@ == spec_capability_name(capability),
{
    match capability {
        Capability::BoolLike => "BoolLike",
        Capability::OptionLike => "OptionLike",
        Capability::ResultLike => "ResultLike",
    }
}

/// The uniquely-named private scope an expansion is placed in, derived
/// deterministically from the capability name and the enum's own name so
/// that sibling expansions never collide.
pub fn scope_name(capability: Capability, name: &String) -> (r: String)
    ensures
        r@ == spec_capability_name(capability) + "_"@ + name@,
{
    let mut s = String::from_str(capability_name(capability));
    s.append("_");
    s.append(name.as_str());
    s
}

/// What a successful expansion of `input` under `capability` contains:
/// the declaration carried over unchanged, the positional role assignment,
/// the derived scope name, and exactly the gated catalog.
pub open spec fn expansion_of(e: Expansion, capability: Capability, input: EnumDef) -> bool
    recommends
        input.variants@.len() == 2,
{
    &&& e.is_public == input.is_public
    &&& e.name == input.name
    &&& e.params@ == input.params@
    &&& e.where_preds@ == input.where_preds@
    &&& e.scope@ == spec_capability_name(capability) + "_"@ + input.name@
    &&& e.roles.primary_name == input.variants@[0].name
    &&& e.roles.secondary_name == input.variants@[1].name
    &&& e.roles.primary_payload == input.variants@[0].fields.spec_payload()
    &&& e.roles.secondary_payload == input.variants@[1].fields.spec_payload()
    &&& match capability {
        Capability::BoolLike => e.decls matches DeclSet::BoolLike(v) && v@ == bool_catalog(),
        Capability::OptionLike => e.decls matches DeclSet::OptionLike(v) && v@ == spec_emit_option(
            input.params@.len() > 0,
        ),
        Capability::ResultLike => e.decls matches DeclSet::ResultLike(v) && v@ == spec_emit_result(
            spec_classify(
                input.params@,
                input.variants@[0].fields.spec_payload(),
                input.variants@[1].fields.spec_payload(),
            ),
        ),
    }
}

/// One whole expansion pass: validate, assign roles, classify, emit.  A
/// rejected input aborts with the validator's diagnostic and nothing is
/// emitted.
pub fn expand(capability: Capability, input: &EnumDef) -> (r: Result<Expansion, ShapeError>)
    ensures
        r is Ok <==> accepts(capability, *input),
        r matches Ok(e) ==> expansion_of(e, capability, *input),
        !accepts(capability, *input) ==> r == Err::<Expansion, ShapeError>(
            rejection(capability, *input),
        ),
{
    let shape = match validate(capability, input) {
        Ok(shape) => shape,
        Err(e) => {
            return Err(e);
        },
    };
    let roles = assign(&shape);
    let scope = scope_name(capability, &shape.name);
    let decls = match capability {
        Capability::BoolLike => DeclSet::BoolLike(emit_bool()),
        Capability::OptionLike => DeclSet::OptionLike(emit_option(shape.params.len() > 0)),
        Capability::ResultLike => DeclSet::ResultLike(emit_result(classify(&shape.params, &roles))),
    };
    Ok(
        Expansion {
            is_public: shape.is_public,
            name: shape.name,
            params: shape.params,
            where_preds: shape.where_preds,
            roles,
            scope,
            decls,
        },
    )
}

/// Annotation-style entry for the bool-like capability: consumes an
/// already-declared enum and emits only the implementation declarations.
pub fn bool_like(input: &EnumDef) -> (r: Result<Expansion, ShapeError>)
    ensures
        r is Ok <==> accepts(Capability::BoolLike, *input),
        r matches Ok(e) ==> expansion_of(e, Capability::BoolLike, *input),
        !accepts(Capability::BoolLike, *input) ==> r == Err::<Expansion, ShapeError>(
            rejection(Capability::BoolLike, *input),
        ),
{
    expand(Capability::BoolLike, input)
}

/// Annotation-style entry for the option-like capability.
pub fn option_like(input: &EnumDef) -> (r: Result<Expansion, ShapeError>)
    ensures
        r is Ok <==> accepts(Capability::OptionLike, *input),
        r matches Ok(e) ==> expansion_of(e, Capability::OptionLike, *input),
        !accepts(Capability::OptionLike, *input) ==> r == Err::<Expansion, ShapeError>(
            rejection(Capability::OptionLike, *input),
        ),
{
    expand(Capability::OptionLike, input)
}

/// Annotation-style entry for the result-like capability.
pub fn result_like(input: &EnumDef) -> (r: Result<Expansion, ShapeError>)
    ensures
        r is Ok <==> accepts(Capability::ResultLike, *input),
        r matches Ok(e) ==> expansion_of(e, Capability::ResultLike, *input),
        !accepts(Capability::ResultLike, *input) ==> r == Err::<Expansion, ShapeError>(
            rejection(Capability::ResultLike, *input),
        ),
{
    expand(Capability::ResultLike, input)
}

} // verus!
