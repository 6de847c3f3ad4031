use builder::attrs::{FieldAttrState, NestedMetaItem};
use builder::parse::{parse_struct, ErrorPlan, FieldAttrRecord, FieldModel, StructAttrRecord};
use builder::types::TypeShape;
use builder::expand::{generate_field_tokens, SetterBody, Visibility};
use builder::names::StructFieldNameParsed;
use builder::parse::StructFieldParsed;
use builder::tokens::StructFieldTokens;
use builder::types::{StructFieldTypeParsed, TakeKind, TypeExpr};

fn field(name: &str, span: usize, ty: StructFieldTypeParsed) -> StructFieldParsed {
    StructFieldParsed {
        name: Some(name.to_string()),
        name_or_index: StructFieldNameParsed::Named(name.to_string()),
        span,
        ty,
        skip_set: false,
        skip_get: false,
        skip: false,
    }
}

fn kinds() -> Vec<StructFieldTypeParsed> {
    vec![
        StructFieldTypeParsed::Normal { ty: 1 },
        StructFieldTypeParsed::Option { inner_ty: 2 },
        StructFieldTypeParsed::Vec { inner_ty: 3, each: None },
        StructFieldTypeParsed::Vec { inner_ty: 3, each: Some("one".to_string()) },
    ]
}

#[test]
fn law_setter_fits_builder_field_on_each_kind() {
    for ty in kinds() {
        let builder_ty = ty.ty_to_builder();
        let s = field("f", 0, ty).fn_set(&Visibility::Public);
        match s.body {
            SetterBody::AssignSome => match s.param_ty {
                TypeExpr::Plain(h) => assert_eq!(builder_ty, TypeExpr::OptionOf(h)),
                other => panic!("unexpected {:?}", other),
            },
            SetterBody::ExtendOne => match s.param_ty {
                TypeExpr::Plain(h) => assert_eq!(builder_ty, TypeExpr::VecOf(h)),
                other => panic!("unexpected {:?}", other),
            },
            SetterBody::ExtendAll => assert_eq!(builder_ty, s.param_ty),
        }
    }
}

#[test]
fn law_getter_reads_builder_field_on_each_kind() {
    for ty in kinds() {
        let builder_ty = ty.ty_to_builder();
        let f = field("f", 0, ty);
        for is_mut in [false, true] {
            let g = f.fn_get(&Visibility::Public, is_mut);
            match (builder_ty, g.ret_ty) {
                (TypeExpr::OptionOf(a), TypeExpr::OptionRef(b)) => assert!(!is_mut && a == b),
                (TypeExpr::OptionOf(a), TypeExpr::OptionRefMut(b)) => assert!(is_mut && a == b),
                (TypeExpr::VecOf(a), TypeExpr::SliceRef(b)) => assert_eq!(a, b),
                other => panic!("unexpected {:?}", other),
            }
        }
    }
}

#[test]
fn law_build_takes_builder_field_on_each_kind() {
    for ty in kinds() {
        let builder_ty = ty.ty_to_builder();
        let is_value = matches!(ty, StructFieldTypeParsed::Normal { .. });
        let t = generate_field_tokens(&Visibility::Public, &field("f", 0, ty));
        match t.build[0].take.kind {
            TakeKind::OptionTakeRequired(h) => assert!(is_value && builder_ty == TypeExpr::OptionOf(h)),
            TakeKind::OptionTake(h) => assert!(!is_value && builder_ty == TypeExpr::OptionOf(h)),
            TakeKind::MemTake(h) => assert_eq!(builder_ty, TypeExpr::VecOf(h)),
        }
    }
}

#[test]
fn law_item_accepted_once_for_each_item() {
    for path in ["skip", "skip_set", "skip_get", "each"] {
        let item = NestedMetaItem { path: Some(path.to_string()), value: Some(Ok("x".to_string())) };
        let mut st = FieldAttrState::initial();
        assert!(st.apply_nested_meta(&item).is_ok());
        let before = st.duplicate();
        assert!(st.apply_nested_meta(&item).is_err());
        assert_eq!(st, before);
    }
}

#[test]
fn law_from_iter_append_on_values() {
    let make = |name: &str, span: usize, skip_set: bool| {
        let mut f = field(name, span, StructFieldTypeParsed::Normal { ty: span });
        f.skip_set = skip_set;
        generate_field_tokens(&Visibility::Public, &f)
    };
    let whole = StructFieldTokens::from_iter(vec![make("a", 0, true), make("b", 1, false), make("c", 2, false)]);
    let first = StructFieldTokens::from_iter(vec![make("a", 0, true)]);
    let second = StructFieldTokens::from_iter(vec![make("b", 1, false), make("c", 2, false)]);
    assert_eq!(first.merge(second), whole);
}

#[test]
fn law_parse_ignores_other_attributes_on_values() {
    let builder_attr = |p: &str| FieldAttrRecord {
        path: Some("builder".to_string()),
        items: vec![NestedMetaItem { path: Some(p.to_string()), value: None }],
        syntax_error: false,
    };
    let other = |p: &str| FieldAttrRecord { path: Some(p.to_string()), items: vec![], syntax_error: true };
    let dup = || StructAttrRecord { path: Some("builder".to_string()), arg: Ok("no_default".to_string()) };
    let doc = || StructAttrRecord { path: Some("doc".to_string()), arg: Err(()) };
    let bare = parse_struct(
        &vec![dup(), dup()],
        &vec![FieldModel {
            ident: Some("x".to_string()),
            ty: TypeShape::Other,
            ty_handle: 0,
            attrs: vec![builder_attr("skip"), builder_attr("skip")],
        }],
    );
    let noisy = parse_struct(
        &vec![doc(), dup(), doc(), dup()],
        &vec![FieldModel {
            ident: Some("x".to_string()),
            ty: TypeShape::Other,
            ty_handle: 0,
            attrs: vec![other("doc"), builder_attr("skip"), other("serde"), builder_attr("skip")],
        }],
    );
    assert_eq!(bare.no_default, noisy.no_default);
    assert_eq!(bare.fields, noisy.fields);
    assert_eq!(bare.errors.len(), noisy.errors.len());
    assert_eq!(bare.errors[0], ErrorPlan::DuplicateNoDefault { attr: 1 });
    assert_eq!(noisy.errors[0], ErrorPlan::DuplicateNoDefault { attr: 3 });
    assert!(matches!(bare.errors[1], ErrorPlan::FieldAttr { field: 0, attr: 1, .. }));
    assert!(matches!(noisy.errors[1], ErrorPlan::FieldAttr { field: 0, attr: 3, .. }));
}
