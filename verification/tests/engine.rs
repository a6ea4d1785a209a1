use result_like::ast::{Capability, EnumDef, FieldShape, ShapeError, ShapeKind, Variant};
use result_like::catalog::{Bound, BoolDecl, Gate, OptionDecl, ResultDecl};
use result_like::catalog::{option_bound, option_needs_generics, result_gate};
use result_like::declare::{declare_option_like, declare_result_like, DeclRequest, DeriveKind};
use result_like::expand as engine;
use result_like::expand::{option_decls_contain, result_decls_contain, DeclSet};
use result_like::option::Opt;
use result_like::result::Res;
use result_like::validate::validate;

fn unit_variant(name: &str) -> Variant {
    Variant { name: name.to_string(), fields: FieldShape::Unit }
}

fn payload_variant(name: &str, ty: &str) -> Variant {
    Variant { name: name.to_string(), fields: FieldShape::Unnamed(ty.to_string()) }
}

fn enum_def(name: &str, params: &[&str], variants: Vec<Variant>) -> EnumDef {
    EnumDef {
        is_public: false,
        name: name.to_string(),
        params: params.iter().map(|p| p.to_string()).collect(),
        where_preds: Vec::new(),
        variants,
    }
}

#[test]
fn test_rejects_three_variants() {
    let def = enum_def(
        "Triple",
        &[],
        vec![payload_variant("A", "i32"), unit_variant("B"), unit_variant("C")],
    );
    let r = engine::option_like(&def);
    match r {
        Err(ShapeError::WrongVariantCount { expected, actual }) => {
            assert_eq!(expected, 2);
            assert_eq!(actual, 3);
        },
        _ => panic!("a three-variant enum must be rejected"),
    }
    assert!(validate(Capability::OptionLike, &def).is_err());
}

#[test]
fn test_rejects_wrong_shape() {
    let def = enum_def("Flipped", &[], vec![unit_variant("None"), payload_variant("Some", "i32")]);
    match engine::option_like(&def) {
        Err(ShapeError::WrongVariantShape { index, required, found }) => {
            assert_eq!(index, 0);
            assert_eq!(required, ShapeKind::Unnamed);
            assert_eq!(found, ShapeKind::Unit);
        },
        _ => panic!("a unit first variant must be rejected for option-like"),
    }
    let def = enum_def(
        "TwoPayloads",
        &[],
        vec![payload_variant("Some", "i32"), payload_variant("Extra", "u8")],
    );
    match engine::option_like(&def) {
        Err(ShapeError::WrongVariantShape { index, required, found }) => {
            assert_eq!(index, 1);
            assert_eq!(required, ShapeKind::Unit);
            assert_eq!(found, ShapeKind::Unnamed);
        },
        _ => panic!("a payload-bearing second variant must be rejected for option-like"),
    }
}

#[test]
fn test_option_expansion_concrete() {
    let def = enum_def(
        "ValueOption",
        &[],
        vec![payload_variant("Some", "i32"), unit_variant("None")],
    );
    let e = engine::option_like(&def).unwrap();
    assert_eq!(e.name, "ValueOption");
    assert_eq!(e.scope, "OptionLike_ValueOption");
    assert_eq!(e.roles.primary_name, "Some");
    assert_eq!(e.roles.secondary_name, "None");
    assert_eq!(e.roles.primary_payload.as_deref(), Some("i32"));
    assert_eq!(e.roles.secondary_payload, None);
    match &e.decls {
        DeclSet::OptionLike(decls) => {
            assert_eq!(decls.len(), 24);
            assert!(option_decls_contain(decls, OptionDecl::FromOption));
            assert!(option_decls_contain(decls, OptionDecl::DefaultImpl));
            // nothing from the generics-conditional group
            assert!(!option_decls_contain(decls, OptionDecl::MapPayload));
            assert!(!option_decls_contain(decls, OptionDecl::AsRef));
            assert!(!option_decls_contain(decls, OptionDecl::CloneImpl));
        },
        _ => panic!("option-like expansion must carry option declarations"),
    }
}

#[test]
fn test_option_expansion_generic() {
    let def = enum_def(
        "GenericOption",
        &["U"],
        vec![payload_variant("Some", "U"), unit_variant("None")],
    );
    let e = engine::option_like(&def).unwrap();
    match &e.decls {
        DeclSet::OptionLike(decls) => {
            assert_eq!(decls.len(), 44);
            assert!(option_decls_contain(decls, OptionDecl::MapPayload));
            assert!(option_decls_contain(decls, OptionDecl::Take));
            assert!(option_decls_contain(decls, OptionDecl::CloneImpl));
        },
        _ => panic!("option-like expansion must carry option declarations"),
    }
}

#[test]
fn test_capability_gating_primary_only() {
    // one payload fixed to a concrete type: the substitution-dependent
    // specializations of that side must not be emitted, while the
    // unconditional baseline still is
    let def = enum_def(
        "ResultA",
        &["T"],
        vec![payload_variant("Ok", "T"), payload_variant("Err", "()")],
    );
    let e = engine::result_like(&def).unwrap();
    match &e.decls {
        DeclSet::ResultLike(decls) => {
            assert_eq!(decls.len(), 23);
            assert!(result_decls_contain(decls, ResultDecl::FromResult));
            assert!(result_decls_contain(decls, ResultDecl::UnwrapOr));
            assert!(result_decls_contain(decls, ResultDecl::MapPayload));
            assert!(!result_decls_contain(decls, ResultDecl::MapErr));
            assert!(!result_decls_contain(decls, ResultDecl::Or));
            assert!(!result_decls_contain(decls, ResultDecl::OrElse));
            assert!(!result_decls_contain(decls, ResultDecl::AsRef));
            assert!(!result_decls_contain(decls, ResultDecl::CopyImpl));
        },
        _ => panic!("result-like expansion must carry result declarations"),
    }
}

#[test]
fn test_capability_gating_secondary_only() {
    let def = enum_def(
        "ResultB",
        &["E"],
        vec![payload_variant("Ok", "i32"), payload_variant("Err", "E")],
    );
    let e = engine::result_like(&def).unwrap();
    match &e.decls {
        DeclSet::ResultLike(decls) => {
            assert_eq!(decls.len(), 16);
            assert!(result_decls_contain(decls, ResultDecl::MapErr));
            assert!(result_decls_contain(decls, ResultDecl::Or));
            assert!(!result_decls_contain(decls, ResultDecl::MapPayload));
            assert!(!result_decls_contain(decls, ResultDecl::IntoIterImpl));
        },
        _ => panic!("result-like expansion must carry result declarations"),
    }
}

#[test]
fn test_result_expansion_full() {
    let def = enum_def(
        "YResult",
        &["T", "E"],
        vec![payload_variant("Okay", "T"), payload_variant("Errr", "E")],
    );
    let e = engine::result_like(&def).unwrap();
    assert_eq!(e.scope, "ResultLike_YResult");
    match &e.decls {
        DeclSet::ResultLike(decls) => {
            assert_eq!(decls.len(), 32);
            assert!(result_decls_contain(decls, ResultDecl::MapPayload));
            assert!(result_decls_contain(decls, ResultDecl::MapErr));
            assert!(result_decls_contain(decls, ResultDecl::AsRef));
            assert!(result_decls_contain(decls, ResultDecl::CopyImpl));
            assert!(result_decls_contain(decls, ResultDecl::IntoIterImpl));
        },
        _ => panic!("result-like expansion must carry result declarations"),
    }
}

#[test]
fn test_classifier_is_textual() {
    // a parenthesized spelling of a type parameter is not classified as
    // generic: the match is textual, not semantic
    let def = enum_def(
        "Wrapped",
        &["T"],
        vec![payload_variant("Ok", "(T)"), payload_variant("Err", "T")],
    );
    let e = engine::result_like(&def).unwrap();
    match &e.decls {
        DeclSet::ResultLike(decls) => {
            assert!(!result_decls_contain(decls, ResultDecl::MapPayload));
            assert!(result_decls_contain(decls, ResultDecl::MapErr));
        },
        _ => panic!("result-like expansion must carry result declarations"),
    }
}

#[test]
fn test_bool_expansion() {
    let def = enum_def("MyBool", &[], vec![unit_variant("Enabled"), unit_variant("Disabled")]);
    let e = engine::bool_like(&def).unwrap();
    assert_eq!(e.scope, "BoolLike_MyBool");
    match &e.decls {
        DeclSet::BoolLike(decls) => {
            assert_eq!(decls.len(), 6);
            assert_eq!(decls[0], BoolDecl::ToBool);
            assert_eq!(decls[5], BoolDecl::IntoBoolImpl);
        },
        _ => panic!("bool-like expansion must carry bool declarations"),
    }
}

#[test]
fn test_catalog_entry_data() {
    assert_eq!(option_bound(OptionDecl::Take), Bound::NeedsDefault);
    assert_eq!(option_bound(OptionDecl::CopyImpl), Bound::NeedsCopy);
    assert_eq!(option_bound(OptionDecl::FromOption), Bound::NoBound);
    assert!(option_needs_generics(OptionDecl::MapPayload));
    assert!(!option_needs_generics(OptionDecl::FromOption));
    assert_eq!(result_gate(ResultDecl::FromResult), Gate::Baseline);
    assert_eq!(result_gate(ResultDecl::MapPayload), Gate::PrimaryGeneric);
    assert_eq!(result_gate(ResultDecl::MapErr), Gate::SecondaryGeneric);
    assert_eq!(result_gate(ResultDecl::CloneImpl), Gate::BothGeneric);
}

#[test]
fn test_declare_option_canonical() {
    let request = DeclRequest { is_public: true, idents: vec!["MyOption".to_string()] };
    let d = declare_option_like(&request).unwrap();
    assert!(d.item.is_public);
    assert_eq!(d.item.name, "MyOption");
    assert_eq!(d.item.params, vec!["T".to_string()]);
    assert_eq!(d.item.variants.len(), 2);
    assert_eq!(d.item.variants[0].name, "Some");
    assert_eq!(d.item.variants[1].name, "None");
    assert!(matches!(d.item.variants[1].fields, FieldShape::Unit));
    assert_eq!(d.derives.len(), 6);
    assert!(d.derives.contains(&DeriveKind::DiscriminantPredicate));
    match &d.expansion.decls {
        DeclSet::OptionLike(decls) => assert_eq!(decls.len(), 44),
        _ => panic!("declaration-style option output must carry option declarations"),
    }
    // the declared type's semantics, on the canonical payload
    assert_eq!(Opt::<i32>::Primary(10).into_option(), Some(10));
    assert_eq!(Opt::<i32>::Secondary.into_option(), None);
}

#[test]
fn test_declare_result_custom_names() {
    let request = DeclRequest {
        is_public: false,
        idents: vec!["YResult".to_string(), "Okay".to_string(), "Errr".to_string()],
    };
    let d = declare_result_like(&request).unwrap();
    assert_eq!(d.item.name, "YResult");
    assert_eq!(d.item.variants[0].name, "Okay");
    assert_eq!(d.item.variants[1].name, "Errr");
    match &d.expansion.decls {
        DeclSet::ResultLike(decls) => assert_eq!(decls.len(), 32),
        _ => panic!("declaration-style result output must carry result declarations"),
    }
    // the declared type's semantics, over the payloads of the scenario
    let okay: Res<&str, ()> = Res::Primary("s");
    assert_eq!(okay.unwrap(), "s");
    let errr: Res<&str, ()> = Res::Secondary(());
    assert_eq!(errr.into_result(), Err(()));
}

#[test]
fn test_declare_unsupported_form() {
    let request = DeclRequest {
        is_public: false,
        idents: vec!["A".to_string(), "B".to_string()],
    };
    assert!(matches!(declare_option_like(&request), Err(ShapeError::UnsupportedInputForm)));
    assert!(matches!(declare_result_like(&request), Err(ShapeError::UnsupportedInputForm)));
    let empty = DeclRequest { is_public: false, idents: Vec::new() };
    assert!(matches!(declare_option_like(&empty), Err(ShapeError::UnsupportedInputForm)));
}
