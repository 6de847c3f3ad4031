use builder::attrs::{
    is_builder_attr, needs_value, FieldAttrError, FieldAttrState, Flag, NestedMetaItem,
};
use builder::parse::{
    parse_struct, ErrorPlan, FieldAttrFailure, FieldAttrRecord, FieldModel, StructAttrRecord,
};
use builder::names::StructFieldNameParsed;
use builder::types::{GenericArgShape, PathArgsShape, PathSegmentShape, StructFieldTypeParsed, TypeShape};

fn item(path: &str) -> NestedMetaItem {
    NestedMetaItem { path: Some(path.to_string()), value: None }
}

fn each(name: &str) -> NestedMetaItem {
    NestedMetaItem { path: Some("each".to_string()), value: Some(Ok(name.to_string())) }
}

fn builder_attr(items: Vec<NestedMetaItem>) -> FieldAttrRecord {
    FieldAttrRecord { path: Some("builder".to_string()), items, syntax_error: false }
}

fn struct_attr(path: &str, arg: Result<&str, ()>) -> StructAttrRecord {
    StructAttrRecord { path: Some(path.to_string()), arg: arg.map(|s| s.to_string()) }
}

fn vec_of(handle: usize) -> TypeShape {
    TypeShape::Path(vec![PathSegmentShape {
        ident: "Vec".to_string(),
        arguments: PathArgsShape::AngleBracketed(vec![GenericArgShape::Type(handle)]),
    }])
}

#[test]
fn builder_attribute_path() {
    assert!(is_builder_attr(&Some("builder".to_string())));
    assert!(!is_builder_attr(&Some("serde".to_string())));
    assert!(!is_builder_attr(&None));
    assert!(needs_value(&Some("each".to_string())));
    assert!(!needs_value(&Some("skip".to_string())));
}

#[test]
fn flags_are_set() {
    let mut st = FieldAttrState::initial();
    assert_eq!(st.apply_nested_meta(&item("skip")), Ok(()));
    assert_eq!(st.apply_nested_meta(&item("skip_set")), Ok(()));
    assert_eq!(st.apply_nested_meta(&item("skip_get")), Ok(()));
    assert_eq!(st.apply_nested_meta(&each("arg")), Ok(()));
    assert_eq!(
        st,
        FieldAttrState { skip: true, skip_set: true, skip_get: true, each: Some("arg".to_string()) }
    );
}

#[test]
fn flag_given_twice_is_refused() {
    let mut st = FieldAttrState::initial();
    assert_eq!(st.apply_nested_meta(&item("skip_get")), Ok(()));
    assert_eq!(st.apply_nested_meta(&item("skip_get")), Err(FieldAttrError::AlreadySet(Flag::SkipGet)));
    assert!(st.skip_get);
    let msg = FieldAttrError::AlreadySet(Flag::SkipGet).message("#[builder(skip_get, skip_get)]");
    assert_eq!(msg, Some("already set 'skip_get'".to_string()));
}

#[test]
fn each_given_twice_is_refused() {
    let mut st = FieldAttrState::initial();
    assert_eq!(st.apply_nested_meta(&each("one")), Ok(()));
    let err = st.apply_nested_meta(&each("two")).unwrap_err();
    assert_eq!(err, FieldAttrError::AlreadySetEach("one".to_string()));
    assert_eq!(err.message(""), Some("already set 'each = one'".to_string()));
    assert_eq!(st.each, Some("one".to_string()));
}

#[test]
fn unknown_and_non_identifier_items_are_refused() {
    let mut st = FieldAttrState::initial();
    let err = st.apply_nested_meta(&item("rename")).unwrap_err();
    assert_eq!(err, FieldAttrError::Unknown("rename".to_string()));
    assert_eq!(err.message(""), Some("unknown attribute `rename`".to_string()));
    assert!(!err.spans_attribute());
    let err = st.apply_nested_meta(&NestedMetaItem { path: None, value: None }).unwrap_err();
    assert_eq!(err, FieldAttrError::ExpectIdentifier);
    assert!(err.spans_attribute());
    assert_eq!(
        err.message("# [builder (a :: b)]"),
        Some("except identifier, but `# [builder (a :: b)]`".to_string())
    );
    assert_eq!(st, FieldAttrState::initial());
}

#[test]
fn each_without_string_value_is_refused() {
    let mut st = FieldAttrState::initial();
    let bad = NestedMetaItem { path: Some("each".to_string()), value: Some(Err(())) };
    let err = st.apply_nested_meta(&bad).unwrap_err();
    assert_eq!(err, FieldAttrError::ValueRejected);
    assert_eq!(err.message(""), None);
    assert_eq!(st.each, None);
}

#[test]
fn items_after_a_refusal_have_no_effect() {
    let mut st = FieldAttrState::initial();
    let items = vec![item("skip_set"), item("bogus"), item("skip")];
    assert_eq!(st.apply_nested_metas(&items), Err(FieldAttrError::Unknown("bogus".to_string())));
    assert!(st.skip_set);
    assert!(!st.skip);
}

#[test]
fn struct_attributes() {
    let attrs = vec![
        struct_attr("doc", Err(())),
        struct_attr("builder", Ok("no_default")),
        struct_attr("builder", Ok("something_else")),
        struct_attr("builder", Err(())),
        struct_attr("builder", Ok("no_default")),
    ];
    let parsed = parse_struct(&attrs, &vec![]);
    assert!(parsed.no_default);
    assert_eq!(
        parsed.errors,
        vec![ErrorPlan::StructAttrArgs { attr: 3 }, ErrorPlan::DuplicateNoDefault { attr: 4 }]
    );
    assert_eq!(
        ErrorPlan::DuplicateNoDefault { attr: 4 }.message(),
        Some("already set 'no_default'".to_string())
    );
    assert_eq!(ErrorPlan::StructAttrArgs { attr: 3 }.message(), None);
}

#[test]
fn no_default_absent() {
    let attrs = vec![struct_attr("builder", Ok("other")), struct_attr("derive", Ok("no_default"))];
    let parsed = parse_struct(&attrs, &vec![]);
    assert!(!parsed.no_default);
    assert!(parsed.errors.is_empty());
}

#[test]
fn fields_are_parsed_in_order() {
    let fields = vec![
        FieldModel {
            ident: Some("args".to_string()),
            ty: vec_of(1),
            ty_handle: 0,
            attrs: vec![
                FieldAttrRecord { path: Some("doc".to_string()), items: vec![item("junk")], syntax_error: true },
                builder_attr(vec![each("arg"), item("skip_get")]),
            ],
        },
        FieldModel {
            ident: Some("count".to_string()),
            ty: TypeShape::Other,
            ty_handle: 2,
            attrs: vec![
                builder_attr(vec![item("skip"), item("skip")]),
                FieldAttrRecord { path: Some("builder".to_string()), items: vec![], syntax_error: true },
            ],
        },
    ];
    let parsed = parse_struct(&vec![struct_attr("builder", Err(()))], &fields);
    assert!(!parsed.no_default);
    assert_eq!(parsed.fields.len(), 2);
    let a = &parsed.fields[0];
    assert_eq!(a.name, Some("args".to_string()));
    assert_eq!(a.name_or_index, StructFieldNameParsed::Named("args".to_string()));
    assert_eq!(a.span, 0);
    assert_eq!(a.ty, StructFieldTypeParsed::Vec { inner_ty: 1, each: Some("arg".to_string()) });
    assert!(a.skip_get && !a.skip_set && !a.skip);
    let b = &parsed.fields[1];
    assert_eq!(b.span, 1);
    assert_eq!(b.ty, StructFieldTypeParsed::Normal { ty: 2 });
    assert!(b.skip && !b.skip_get);
    assert_eq!(
        parsed.errors,
        vec![
            ErrorPlan::StructAttrArgs { attr: 0 },
            ErrorPlan::FieldAttr {
                field: 1,
                attr: 0,
                reason: FieldAttrFailure::Meta(FieldAttrError::AlreadySet(Flag::Skip)),
            },
            ErrorPlan::FieldAttr { field: 1, attr: 1, reason: FieldAttrFailure::Syntax },
        ]
    );
}

#[test]
fn tuple_fields_are_numbered() {
    let fields = vec![
        FieldModel { ident: None, ty: TypeShape::Other, ty_handle: 0, attrs: vec![] },
        FieldModel { ident: None, ty: TypeShape::Other, ty_handle: 1, attrs: vec![] },
    ];
    let parsed = parse_struct(&vec![], &fields);
    assert_eq!(parsed.fields[1].name, None);
    assert_eq!(parsed.fields[1].name_or_index, StructFieldNameParsed::Unnamed(1));
    assert!(parsed.errors.is_empty());
}
