use builder::attrs::NestedMetaItem;
use builder::expand::{
    do_expend, generate_field_tokens, BuilderFnPlan, DataModel, DeriveInputModel, DeriveTrait, GetterBody,
    SetterBody, Visibility,
};
use builder::names::StructFieldNameParsed;
use builder::parse::{ErrorPlan, FieldAttrRecord, FieldModel, StructAttrRecord, StructFieldParsed};
use builder::tokens::StructFieldTokens;
use builder::types::{
    GenericArgShape, PathArgsShape, PathSegmentShape, StructFieldTypeParsed, TakeKind, TypeExpr, TypeShape,
};

fn generic(outer: &str, handle: usize) -> TypeShape {
    TypeShape::Path(vec![PathSegmentShape {
        ident: outer.to_string(),
        arguments: PathArgsShape::AngleBracketed(vec![GenericArgShape::Type(handle)]),
    }])
}

fn plain() -> TypeShape {
    TypeShape::Path(vec![PathSegmentShape { ident: "String".to_string(), arguments: PathArgsShape::Empty }])
}

fn builder_attr(items: &[&str]) -> FieldAttrRecord {
    FieldAttrRecord {
        path: Some("builder".to_string()),
        items: items
            .iter()
            .map(|p| NestedMetaItem { path: Some(p.to_string()), value: None })
            .collect(),
        syntax_error: false,
    }
}

fn each_attr(name: &str) -> FieldAttrRecord {
    FieldAttrRecord {
        path: Some("builder".to_string()),
        items: vec![NestedMetaItem { path: Some("each".to_string()), value: Some(Ok(name.to_string())) }],
        syntax_error: false,
    }
}

fn parsed_field(name: &str, span: usize, ty: StructFieldTypeParsed) -> StructFieldParsed {
    StructFieldParsed {
        name: Some(name.to_string()),
        name_or_index: StructFieldNameParsed::Named(name.to_string()),
        span,
        ty,
        skip_set: false,
        skip_get: false,
        skip: false,
    }
}

#[test]
fn setter_of_a_value_field() {
    let f = parsed_field("executable", 0, StructFieldTypeParsed::Normal { ty: 7 });
    let s = f.fn_set(&Visibility::Public);
    assert_eq!(s.fn_name, "executable");
    assert_eq!(s.param_name, "executable");
    assert_eq!(s.param_ty, TypeExpr::Plain(7));
    assert_eq!(s.body, SetterBody::AssignSome);
    assert_eq!(s.member, StructFieldNameParsed::Named("executable".to_string()));
    assert_eq!(s.vis, Visibility::Public);
}

#[test]
fn setters_of_vec_fields() {
    let all = parsed_field("env", 2, StructFieldTypeParsed::Vec { inner_ty: 3, each: None });
    let s = all.fn_set(&Visibility::Inherited);
    assert_eq!(s.fn_name, "env");
    assert_eq!(s.param_ty, TypeExpr::VecOf(3));
    assert_eq!(s.body, SetterBody::ExtendAll);
    assert_eq!(s.span, 2);
    let one = parsed_field("args", 1, StructFieldTypeParsed::Vec { inner_ty: 4, each: Some("arg".to_string()) });
    let s = one.fn_set(&Visibility::Public);
    assert_eq!(s.fn_name, "arg");
    assert_eq!(s.param_name, "arg");
    assert_eq!(s.param_ty, TypeExpr::Plain(4));
    assert_eq!(s.body, SetterBody::ExtendOne);
    assert_eq!(s.member, StructFieldNameParsed::Named("args".to_string()));
}

#[test]
fn getters() {
    let f = parsed_field("current_dir", 0, StructFieldTypeParsed::Option { inner_ty: 9 });
    let g = f.fn_get(&Visibility::Public, false);
    assert_eq!(g.fn_name, "get_current_dir");
    assert_eq!(g.ret_ty, TypeExpr::OptionRef(9));
    assert_eq!(g.body, GetterBody::AsRef);
    let g = f.fn_get(&Visibility::Public, true);
    assert_eq!(g.fn_name, "get_mut_current_dir");
    assert_eq!(g.ret_ty, TypeExpr::OptionRefMut(9));
    assert_eq!(g.body, GetterBody::AsMut);
    let v = parsed_field("args", 1, StructFieldTypeParsed::Vec { inner_ty: 4, each: None });
    let g = v.fn_get(&Visibility::Public, true);
    assert_eq!(g.fn_name, "get_mut_args");
    assert_eq!(g.ret_ty, TypeExpr::SliceRef(4));
    assert_eq!(g.body, GetterBody::RefMut);
    assert_eq!(v.fn_get(&Visibility::Public, false).body, GetterBody::Ref);
}

#[test]
fn field_tokens_of_a_tuple_field() {
    let f = StructFieldParsed {
        name: None,
        name_or_index: StructFieldNameParsed::Unnamed(3),
        span: 3,
        ty: StructFieldTypeParsed::Normal { ty: 1 },
        skip_set: true,
        skip_get: false,
        skip: false,
    };
    let t = generate_field_tokens(&Visibility::Public, &f);
    assert_eq!(t.errors, vec![ErrorPlan::MissingIdent { field: 3 }]);
    assert_eq!(
        ErrorPlan::MissingIdent { field: 3 }.message(),
        Some("not set ident, please use #[builder(ident = \"new_ident\")]".to_string())
    );
    assert_eq!(t.new.len(), 1);
    assert_eq!(t.new[0].name, "unknown3");
    assert_eq!(t.new[0].ty, TypeExpr::OptionOf(1));
    assert_eq!(t.init[0].name, "unknown3");
    assert_eq!(t.build[0].name, "unknown3");
    assert_eq!(t.build[0].take.kind, TakeKind::OptionTakeRequired(1));
    assert_eq!(t.build[0].take.place, "unknown3");
    assert!(t.setter.is_none());
    let getters = t.getter.unwrap();
    assert_eq!(getters.len(), 2);
    assert_eq!(getters[0].fn_name, "get_unknown3");
    assert_eq!(getters[1].fn_name, "get_mut_unknown3");
    assert_eq!(getters[0].member, StructFieldNameParsed::Unnamed(3));
}

#[test]
fn collecting_field_tokens() {
    let a = parsed_field("a", 0, StructFieldTypeParsed::Normal { ty: 0 });
    let mut b = parsed_field("b", 1, StructFieldTypeParsed::Normal { ty: 1 });
    b.skip_set = true;
    b.skip_get = true;
    let c = parsed_field("c", 2, StructFieldTypeParsed::Normal { ty: 2 });
    let all = StructFieldTokens::from_iter(vec![
        generate_field_tokens(&Visibility::Public, &a),
        generate_field_tokens(&Visibility::Public, &b),
        generate_field_tokens(&Visibility::Public, &c),
    ]);
    let names: Vec<_> = all.new.iter().map(|d| d.name.clone()).collect();
    assert_eq!(names, vec!["a", "b", "c"]);
    let setters: Vec<_> = all.setter.unwrap().iter().map(|s| s.fn_name.clone()).collect();
    assert_eq!(setters, vec!["a", "c"]);
    let getters: Vec<_> = all.getter.unwrap().iter().map(|g| g.fn_name.clone()).collect();
    assert_eq!(getters, vec!["get_a", "get_mut_a", "get_c", "get_mut_c"]);
    assert!(all.errors.is_empty());
}

#[test]
fn collecting_nothing() {
    let none = StructFieldTokens::from_iter(vec![]);
    assert_eq!(none, StructFieldTokens::default());
    assert!(none.setter.is_none() && none.getter.is_none());
}

fn command_input(no_default: bool) -> DeriveInputModel {
    let mut attrs = vec![StructAttrRecord { path: Some("derive".to_string()), arg: Err(()) }];
    if no_default {
        attrs.push(StructAttrRecord { path: Some("builder".to_string()), arg: Ok("no_default".to_string()) });
    }
    DeriveInputModel {
        ident: "Command".to_string(),
        attrs,
        data: DataModel::Struct {
            fields: vec![
                FieldModel { ident: Some("executable".to_string()), ty: plain(), ty_handle: 0, attrs: vec![] },
                FieldModel {
                    ident: Some("args".to_string()),
                    ty: generic("Vec", 2),
                    ty_handle: 1,
                    attrs: vec![each_attr("arg")],
                },
                FieldModel {
                    ident: Some("secret".to_string()),
                    ty: plain(),
                    ty_handle: 3,
                    attrs: vec![builder_attr(&["skip"])],
                },
                FieldModel {
                    ident: Some("current_dir".to_string()),
                    ty: generic("Option", 5),
                    ty_handle: 4,
                    attrs: vec![builder_attr(&["skip_get", "skip_set"])],
                },
            ],
        },
    }
}

#[test]
fn expansion_of_a_struct() {
    let plan = do_expend(&command_input(false));
    assert_eq!(plan.ty, "Command");
    assert_eq!(plan.builder_ident, "CommandBuilder");
    assert_eq!(plan.vis, Visibility::Public);
    assert_eq!(
        plan.derives,
        vec![DeriveTrait::DeriveClone, DeriveTrait::DeriveDebug, DeriveTrait::DeriveDefault]
    );
    assert_eq!(plan.builder_fn, BuilderFnPlan::DefaultCall);
    assert!(plan.errors.is_empty());
    let fields: Vec<_> = plan.new.iter().map(|d| (d.name.clone(), d.ty, d.span)).collect();
    assert_eq!(
        fields,
        vec![
            ("executable".to_string(), TypeExpr::OptionOf(0), 0),
            ("args".to_string(), TypeExpr::VecOf(2), 1),
            ("current_dir".to_string(), TypeExpr::OptionOf(5), 3),
        ]
    );
    let inits: Vec<_> = plan.init.iter().map(|i| i.name.clone()).collect();
    assert_eq!(inits, vec!["executable", "args", "current_dir"]);
    let setters: Vec<_> = plan.setter.unwrap().iter().map(|s| (s.fn_name.clone(), s.body)).collect();
    assert_eq!(
        setters,
        vec![("executable".to_string(), SetterBody::AssignSome), ("arg".to_string(), SetterBody::ExtendOne)]
    );
    let getters: Vec<_> = plan.getter.unwrap().iter().map(|g| g.fn_name.clone()).collect();
    assert_eq!(getters, vec!["get_executable", "get_mut_executable", "get_args", "get_mut_args"]);
    let builds: Vec<_> = plan.build.iter().map(|b| (b.name.clone(), b.take.kind)).collect();
    assert_eq!(
        builds,
        vec![
            ("executable".to_string(), TakeKind::OptionTakeRequired(0)),
            ("args".to_string(), TakeKind::MemTake(2)),
            ("current_dir".to_string(), TakeKind::OptionTake(5)),
        ]
    );
}

#[test]
fn expansion_without_default() {
    let plan = do_expend(&command_input(true));
    assert_eq!(plan.derives, vec![DeriveTrait::DeriveClone, DeriveTrait::DeriveDebug]);
    assert_eq!(plan.builder_fn, BuilderFnPlan::InitLiteral);
}

#[test]
fn expansion_errors_in_order() {
    let input = DeriveInputModel {
        ident: "Pair".to_string(),
        attrs: vec![
            StructAttrRecord { path: Some("builder".to_string()), arg: Ok("no_default".to_string()) },
            StructAttrRecord { path: Some("builder".to_string()), arg: Ok("no_default".to_string()) },
        ],
        data: DataModel::Struct {
            fields: vec![
                FieldModel { ident: None, ty: plain(), ty_handle: 0, attrs: vec![builder_attr(&["nope"])] },
                FieldModel { ident: None, ty: plain(), ty_handle: 1, attrs: vec![builder_attr(&["skip"])] },
                FieldModel { ident: None, ty: plain(), ty_handle: 2, attrs: vec![] },
            ],
        },
    };
    let plan = do_expend(&input);
    assert_eq!(plan.builder_ident, "PairBuilder");
    assert_eq!(plan.errors.len(), 4);
    assert_eq!(plan.errors[0], ErrorPlan::MissingIdent { field: 0 });
    assert_eq!(plan.errors[1], ErrorPlan::MissingIdent { field: 2 });
    assert_eq!(plan.errors[2], ErrorPlan::DuplicateNoDefault { attr: 1 });
    assert!(matches!(plan.errors[3], ErrorPlan::FieldAttr { field: 0, attr: 0, .. }));
    let names: Vec<_> = plan.new.iter().map(|d| d.name.clone()).collect();
    assert_eq!(names, vec!["unknown0", "unknown2"]);
}

#[test]
fn expand_checked_accepts_plain_names() {
    let plan = builder::expand::expand_checked(&command_input(false)).unwrap();
    assert_eq!(plan.builder_ident, "CommandBuilder");
}

#[test]
fn expand_checked_refuses_raw_getter_names() {
    let input = DeriveInputModel {
        ident: "Token".to_string(),
        attrs: vec![],
        data: DataModel::Struct {
            fields: vec![FieldModel { ident: Some("r#type".to_string()), ty: plain(), ty_handle: 0, attrs: vec![] }],
        },
    };
    assert_eq!(builder::expand::expand_checked(&input).unwrap_err(), "get_r#type");
}

#[test]
fn expand_checked_accepts_raw_names_without_getters() {
    let input = DeriveInputModel {
        ident: "Token".to_string(),
        attrs: vec![],
        data: DataModel::Struct {
            fields: vec![FieldModel {
                ident: Some("r#type".to_string()),
                ty: plain(),
                ty_handle: 0,
                attrs: vec![builder_attr(&["skip_get"])],
            }],
        },
    };
    let plan = builder::expand::expand_checked(&input).unwrap();
    assert_eq!(plan.setter.unwrap()[0].fn_name, "r#type");
}

#[test]
fn expand_checked_refuses_bad_each_names() {
    let input = DeriveInputModel {
        ident: "Command".to_string(),
        attrs: vec![],
        data: DataModel::Struct {
            fields: vec![
                FieldModel { ident: Some("a".to_string()), ty: plain(), ty_handle: 0, attrs: vec![] },
                FieldModel {
                    ident: Some("args".to_string()),
                    ty: generic("Vec", 2),
                    ty_handle: 1,
                    attrs: vec![each_attr("a-b")],
                },
            ],
        },
    };
    assert_eq!(builder::expand::expand_checked(&input).unwrap_err(), "a-b");
}

#[test]
fn expand_checked_reports_the_first_invalid_name() {
    let input = DeriveInputModel {
        ident: "Command".to_string(),
        attrs: vec![],
        data: DataModel::Struct {
            fields: vec![
                FieldModel {
                    ident: Some("r#skipped".to_string()),
                    ty: plain(),
                    ty_handle: 0,
                    attrs: vec![builder_attr(&["skip"])],
                },
                FieldModel {
                    ident: Some("r#args".to_string()),
                    ty: generic("Vec", 2),
                    ty_handle: 1,
                    attrs: vec![each_attr("a-b")],
                },
                FieldModel { ident: Some("r#type".to_string()), ty: plain(), ty_handle: 3, attrs: vec![] },
            ],
        },
    };
    // the `each` setter of the second field comes before its getters and
    // before the third field's getters; the skipped field makes none
    assert_eq!(builder::expand::expand_checked(&input).unwrap_err(), "a-b");
}
