use vstd::prelude::*;

use crate::names::{copy_text, is_valid_ident, valid_ident, StructFieldNameParsed};
use crate::parse::{
    fields_errors_spec, parse_struct, parsed_field_spec, struct_attrs_spec, ErrorPlan, FieldModel,
    StructAttrRecord, StructFieldParsed,
};
use crate::tokens::{
    from_iter_spec, merge_spec, views, FieldBuild, FieldDecl, FieldInit, StructFieldTokens,
    StructFieldTokensView,
};
use crate::types::{StructFieldTypeParsed, TypeExpr};

verus! {

/// The visibility of the generated builder items.
#[derive(PartialEq, Eq, Structural, Clone, Copy, Debug)]
pub enum Visibility {
    /// `pub`
    Public,
    /// no visibility keyword
    Inherited,
}

/// What a setter does with its parameter.
#[derive(PartialEq, Eq, Structural, Clone, Copy, Debug)]
pub enum SetterBody {
    /// `self.field = Some(param);`
    AssignSome,
    /// `self.field.extend([param].into_iter());`
    ExtendOne,
    /// `self.field.extend(param);`
    ExtendAll,
}

/// A setter of the builder: `vis fn fn_name(&mut self, param_name: param_ty)
/// -> &mut Self { body; self }`, on the builder field `member`, placed at the
/// source location of field `span`.
#[derive(Debug, PartialEq, Eq)]
pub struct SetterPlan {
    pub vis: Visibility,
    pub span: usize,
    pub fn_name: String,
    pub param_name: String,
    pub param_ty: TypeExpr,
    pub member: StructFieldNameParsed,
    pub body: SetterBody,
}

/// What a getter returns.
#[derive(PartialEq, Eq, Structural, Clone, Copy, Debug)]
pub enum GetterBody {
    /// `self.field.as_ref()`
    AsRef,
    /// `self.field.as_mut()`
    AsMut,
    /// `&self.field`
    Ref,
    /// `&mut self.field`
    RefMut,
}

/// A getter of the builder: `vis fn fn_name(&mut self) -> ret_ty { body }`,
/// on the builder field `member`, placed at the source location of field
/// `span`.
#[derive(Debug, PartialEq, Eq)]
pub struct GetterPlan {
    pub vis: Visibility,
    pub span: usize,
    pub fn_name: String,
    pub ret_ty: TypeExpr,
    pub member: StructFieldNameParsed,
    pub body: GetterBody,
}

impl StructFieldParsed {
    /// The identifier under which the builder knows the field: the field's
    /// identifier, or `unknown` followed by the position of a tuple field.
    pub open spec fn spec_param_name(&self) -> Seq<char> {
        match self.name {
            Some(n) => n@,
            None => self.name_or_index.ident_spec("unknown"@),
        }
    }

    /// See `spec_param_name`.
    pub fn param_name(&self) -> (r: String)
        ensures
            r@ == self.spec_param_name(),
    {
        match &self.name {
            Some(n) => copy_text(n),
            None => self.name_or_index.to_ident("unknown"),
        }
    }

    /// The name of the getter that lends the field mutably when `is_mut`:
    /// `get_mut_` or `get_` followed by the field's name.
    pub open spec fn spec_getter_name(&self, is_mut: bool) -> Seq<char> {
        (if is_mut { "get_mut_"@ } else { "get_"@ }) + self.spec_param_name()
    }

    /// Whether the setter's name, where it is made from an `each` string,
    /// is an identifier (else making the setter panics).
    pub open spec fn setter_name_valid(&self) -> bool {
        match self.ty {
            StructFieldTypeParsed::Vec { each: Some(e), .. } => valid_ident(e@),
            _ => true,
        }
    }

    /// Whether the names of the accessors that the builder makes for this
    /// field are identifiers: the setter's unless `skip_set`, both getters'
    /// unless `skip_get`.
    pub open spec fn names_valid(&self) -> bool {
        &&& !self.skip_set ==> self.setter_name_valid()
        &&& !self.skip_get ==> valid_ident(self.spec_getter_name(false)) && valid_ident(self.spec_getter_name(true))
    }

    /// The setter of this field: named after the field, assigning `Some` of
    /// its parameter, or, for a `Vec` field, extending the vector by its
    /// parameter; or, where `each` is set, named `each` and adding one item.
    pub open spec fn setter_ok(&self, vis: Visibility, p: SetterPlan) -> bool {
        &&& p.vis == vis
        &&& p.span == self.span
        &&& p.member == self.name_or_index
        &&& p.param_ty == self.ty.spec_ty_fn_set()
        &&& match self.ty {
            StructFieldTypeParsed::Vec { each: Some(each), .. } => {
                &&& p.fn_name@ == each@
                &&& p.param_name@ == each@
                &&& p.body == SetterBody::ExtendOne
            },
            StructFieldTypeParsed::Vec { each: None, .. } => {
                &&& p.fn_name@ == self.spec_param_name()
                &&& p.param_name@ == self.spec_param_name()
                &&& p.body == SetterBody::ExtendAll
            },
            _ => {
                &&& p.fn_name@ == self.spec_param_name()
                &&& p.param_name@ == self.spec_param_name()
                &&& p.body == SetterBody::AssignSome
            },
        }
    }

    /// The getter of this field that lends it mutably when `is_mut`:
    /// `get_name` or `get_mut_name`.
    pub open spec fn getter_ok(&self, vis: Visibility, is_mut: bool, g: GetterPlan) -> bool {
        &&& g.vis == vis
        &&& g.span == self.span
        &&& g.member == self.name_or_index
        &&& g.ret_ty == self.ty.spec_ty_get(is_mut)
        &&& g.fn_name@ == self.spec_getter_name(is_mut)
        &&& g.body == match self.ty {
            StructFieldTypeParsed::Vec { .. } => if is_mut { GetterBody::RefMut } else { GetterBody::Ref },
            _ => if is_mut { GetterBody::AsMut } else { GetterBody::AsRef },
        }
    }

    /// The setter of this field (see `setter_ok`).
    pub fn fn_set(&self, vis: &Visibility) -> (r: SetterPlan)
        requires
            self.setter_name_valid(),
        ensures
            self.setter_ok(*vis, r),
    {
        let param_name = self.param_name();
        let param_ty = self.ty.ty_fn_set();
        match &self.ty {
            StructFieldTypeParsed::Vec { each: Some(each), .. } => SetterPlan {
                vis: *vis,
                span: self.span,
                fn_name: copy_text(each),
                param_name: copy_text(each),
                param_ty,
                member: self.name_or_index.duplicate(),
                body: SetterBody::ExtendOne,
            },
            StructFieldTypeParsed::Vec { each: None, .. } => SetterPlan {
                vis: *vis,
                span: self.span,
                fn_name: copy_text(&param_name),
                param_name,
                param_ty,
                member: self.name_or_index.duplicate(),
                body: SetterBody::ExtendAll,
            },
            _ => SetterPlan {
                vis: *vis,
                span: self.span,
                fn_name: copy_text(&param_name),
                param_name,
                param_ty,
                member: self.name_or_index.duplicate(),
                body: SetterBody::AssignSome,
            },
        }
    }

    /// A getter of this field (see `getter_ok`).
    pub fn fn_get(&self, vis: &Visibility, is_mut: bool) -> (r: GetterPlan)
        requires
            valid_ident(self.spec_getter_name(is_mut)),
        ensures
            self.getter_ok(*vis, is_mut, r),
    {
        let param_name = self.param_name();
        let ret_ty = self.ty.ty_get(is_mut);
        let mut fn_name = if is_mut {
            String::from_str("get_mut_")
        } else {
            String::from_str("get_")
        };
        fn_name.append(param_name.as_str());
        let body = match &self.ty {
            StructFieldTypeParsed::Vec { .. } => if is_mut { GetterBody::RefMut } else { GetterBody::Ref },
            _ => if is_mut { GetterBody::AsMut } else { GetterBody::AsRef },
        };
        GetterPlan {
            vis: *vis,
            span: self.span,
            fn_name,
            ret_ty,
            member: self.name_or_index.duplicate(),
            body,
        }
    }
}


impl StructFieldParsed {
    /// The builder field of this field: `name: ty` with the builder type.
    pub open spec fn decl_ok(&self, d: FieldDecl) -> bool {
        &&& d.span == self.span
        &&& d.name@ == self.spec_param_name()
        &&& d.ty == self.ty.spec_ty_to_builder()
    }

    /// The empty initialisation of this field's builder field.
    pub open spec fn init_ok(&self, i: FieldInit) -> bool {
        &&& i.span == self.span
        &&& i.name@ == self.spec_param_name()
    }

    /// How `build` fills this field: taken out of the builder field of the
    /// same name.
    pub open spec fn build_ok(&self, b: FieldBuild) -> bool {
        &&& b.span == self.span
        &&& b.name@ == self.spec_param_name()
        &&& b.take.kind == self.ty.spec_take_kind()
        &&& b.take.place@ == self.spec_param_name()
    }

    /// The pieces that this field contributes: an error when it has no
    /// identifier, its builder field, initialisation and `build` entry, its
    /// setter unless `skip_set`, and its two getters (shared, then mutable)
    /// unless `skip_get`.
    pub open spec fn tokens_ok(&self, vis: Visibility, t: StructFieldTokensView) -> bool {
        &&& t.errors == if self.name is None {
            seq![ErrorPlan::MissingIdent { field: self.span }]
        } else {
            seq![]
        }
        &&& t.new.len() == 1 && self.decl_ok(t.new[0])
        &&& t.init.len() == 1 && self.init_ok(t.init[0])
        &&& t.build.len() == 1 && self.build_ok(t.build[0])
        &&& if self.skip_set {
            t.setter is None
        } else {
            t.setter matches Some(s) && s.len() == 1 && self.setter_ok(vis, s[0])
        }
        &&& if self.skip_get {
            t.getter is None
        } else {
            t.getter matches Some(g) && g.len() == 2 && self.getter_ok(vis, false, g[0])
                && self.getter_ok(vis, true, g[1])
        }
    }
}

/// The pieces of the generated code that come from one field (see
/// `tokens_ok`).
pub fn generate_field_tokens(vis: &Visibility, field: &StructFieldParsed) -> (r: StructFieldTokens)
    requires
        field.names_valid(),
    ensures
        field.tokens_ok(*vis, r@),
{
    let mut errors: Vec<ErrorPlan> = Vec::new();
    if field.name.is_none() {
        errors.push(ErrorPlan::MissingIdent { field: field.span });
    }
    let name = field.param_name();
    let span = field.span;
    let builder_field_ty = field.ty.ty_to_builder();
    let mut new: Vec<FieldDecl> = Vec::new();
    new.push(FieldDecl { span, name: copy_text(&name), ty: builder_field_ty });
    let mut init: Vec<FieldInit> = Vec::new();
    init.push(FieldInit { span, name: copy_text(&name) });
    let setter = if field.skip_set {
        None
    } else {
        let mut v: Vec<SetterPlan> = Vec::new();
        v.push(field.fn_set(vis));
        Some(v)
    };
    let getter = if field.skip_get {
        None
    } else {
        let mut v: Vec<GetterPlan> = Vec::new();
        v.push(field.fn_get(vis, false));
        v.push(field.fn_get(vis, true));
        Some(v)
    };
    let take = field.ty.tokens_take(&name);
    let mut build: Vec<FieldBuild> = Vec::new();
    build.push(FieldBuild { span, name, take });
    StructFieldTokens { errors, new, init, setter, getter, build }
}

/// The fields that are not skipped, in order.
pub open spec fn kept_spec(fs: Seq<StructFieldParsed>) -> Seq<StructFieldParsed>
    decreases fs.len(),
{
    if fs.len() == 0 {
        seq![]
    } else if fs.last().skip {
        kept_spec(fs.drop_last())
    } else {
        kept_spec(fs.drop_last()).push(fs.last())
    }
}

/// The fields without `skip_set`, in order.
pub open spec fn settable_spec(fs: Seq<StructFieldParsed>) -> Seq<StructFieldParsed>
    decreases fs.len(),
{
    if fs.len() == 0 {
        seq![]
    } else if fs.last().skip_set {
        settable_spec(fs.drop_last())
    } else {
        settable_spec(fs.drop_last()).push(fs.last())
    }
}

/// The fields without `skip_get`, in order.
pub open spec fn gettable_spec(fs: Seq<StructFieldParsed>) -> Seq<StructFieldParsed>
    decreases fs.len(),
{
    if fs.len() == 0 {
        seq![]
    } else if fs.last().skip_get {
        gettable_spec(fs.drop_last())
    } else {
        gettable_spec(fs.drop_last()).push(fs.last())
    }
}

/// One error for each field without an identifier, in order.
pub open spec fn missing_ident_spec(fs: Seq<StructFieldParsed>) -> Seq<ErrorPlan>
    decreases fs.len(),
{
    if fs.len() == 0 {
        seq![]
    } else if fs.last().name is None {
        missing_ident_spec(fs.drop_last()).push(ErrorPlan::MissingIdent { field: fs.last().span })
    } else {
        missing_ident_spec(fs.drop_last())
    }
}

/// The setters of the fields `fs`, in order; `None` when there are none.
pub open spec fn setters_ok(fs: Seq<StructFieldParsed>, vis: Visibility, s: Option<Seq<SetterPlan>>) -> bool {
    match s {
        None => fs.len() == 0,
        Some(v) => {
            &&& fs.len() > 0
            &&& v.len() == fs.len()
            &&& forall|k: int| 0 <= k < fs.len() ==> #[trigger] fs[k].setter_ok(vis, v[k])
        },
    }
}

/// The getters of the fields `fs`, in order, each field's shared getter
/// before its mutable one (getter `m` belongs to field `m / 2` and is the
/// mutable one when `m` is odd); `None` when there are none.
pub open spec fn getters_ok(fs: Seq<StructFieldParsed>, vis: Visibility, g: Option<Seq<GetterPlan>>) -> bool {
    match g {
        None => fs.len() == 0,
        Some(v) => {
            &&& fs.len() > 0
            &&& v.len() == 2 * fs.len()
            &&& forall|m: int| 0 <= m < v.len() ==> fs[m / 2].getter_ok(vis, m % 2 == 1, #[trigger] v[m])
        },
    }
}

/// Collecting the pieces of the fields `fs` gives their builder fields,
/// initialisations and `build` entries in field order, the setters and
/// getters of those fields that have them, and one error for each field
/// without an identifier.
pub proof fn lemma_collect_fields(vis: Visibility, fs: Seq<StructFieldParsed>, items: Seq<StructFieldTokensView>)
    requires
        items.len() == fs.len(),
        forall|j: int| 0 <= j < fs.len() ==> #[trigger] fs[j].tokens_ok(vis, items[j]),
    ensures
        from_iter_spec(items).errors == missing_ident_spec(fs),
        from_iter_spec(items).new.len() == fs.len(),
        from_iter_spec(items).init.len() == fs.len(),
        from_iter_spec(items).build.len() == fs.len(),
        forall|j: int| 0 <= j < fs.len() ==> {
            &&& #[trigger] fs[j].decl_ok(from_iter_spec(items).new[j])
            &&& fs[j].init_ok(from_iter_spec(items).init[j])
            &&& fs[j].build_ok(from_iter_spec(items).build[j])
        },
        setters_ok(settable_spec(fs), vis, from_iter_spec(items).setter),
        getters_ok(gettable_spec(fs), vis, from_iter_spec(items).getter),
    decreases fs.len(),
{
    if fs.len() > 0 {
        let n = fs.len() - 1;
        let fs0 = fs.drop_last();
        let items0 = items.drop_last();
        assert forall|j: int| 0 <= j < fs0.len() implies #[trigger] fs0[j].tokens_ok(vis, items0[j]) by {
            assert(fs0[j] == fs[j]);
            assert(fs[j].tokens_ok(vis, items[j]));
        }
        lemma_collect_fields(vis, fs0, items0);
        let acc = from_iter_spec(items0);
        let x = items.last();
        let f = fs.last();
        assert(f.tokens_ok(vis, x)) by {
            assert(fs[n] == f);
        }
        let t = from_iter_spec(items);
        assert(t == merge_spec(acc, x));
        assert forall|j: int| 0 <= j < fs.len() implies {
            &&& #[trigger] fs[j].decl_ok(t.new[j])
            &&& fs[j].init_ok(t.init[j])
            &&& fs[j].build_ok(t.build[j])
        } by {
            if j < n {
                assert(fs0[j] == fs[j]);
                assert(fs0[j].decl_ok(acc.new[j]));
            }
        }
        if f.skip_set {
            assert(settable_spec(fs) == settable_spec(fs0));
            assert(t.setter == acc.setter);
        } else {
            let s = settable_spec(fs);
            let s0 = settable_spec(fs0);
            assert(s == s0.push(f));
            let xs = x.setter->0;
            assert(xs.len() == 1 && f.setter_ok(vis, xs[0]));
            let v = t.setter->0;
            match acc.setter {
                Some(v0) => {
                    assert(v == v0 + xs);
                    assert(v.len() == s.len());
                },
                None => {
                    assert(s0.len() == 0);
                    assert(v == xs);
                },
            }
            assert forall|k: int| 0 <= k < s.len() implies #[trigger] s[k].setter_ok(vis, v[k]) by {
                if k < s.len() - 1 {
                    let v0 = acc.setter->0;
                    assert(s[k] == s0[k]);
                    assert(v[k] == v0[k]);
                    assert(s0[k].setter_ok(vis, v0[k]));
                } else {
                    assert(s[k] == f);
                    assert(v[k] == xs[0]);
                }
            }
        }
        if f.skip_get {
            assert(gettable_spec(fs) == gettable_spec(fs0));
            assert(t.getter == acc.getter);
        } else {
            let s = gettable_spec(fs);
            let s0 = gettable_spec(fs0);
            assert(s == s0.push(f));
            let xg = x.getter->0;
            assert(xg.len() == 2);
            let v = t.getter->0;
            match acc.getter {
                Some(v0) => {
                    assert(v == v0 + xg);
                    assert(v.len() == 2 * s.len());
                },
                None => {
                    assert(s0.len() == 0);
                    assert(v == xg);
                },
            }
            assert forall|m: int| 0 <= m < v.len() implies s[m / 2].getter_ok(vis, m % 2 == 1, #[trigger] v[m]) by {
                if m < v.len() - 2 {
                    let v0 = acc.getter->0;
                    assert(s[m / 2] == s0[m / 2]);
                    assert(v[m] == v0[m]);
                } else {
                    assert(m / 2 == s.len() - 1);
                    assert(s[m / 2] == f);
                    if m % 2 == 0 {
                        assert(m == v.len() - 2);
                        assert(v[m] == xg[0]);
                    } else {
                        assert(m == v.len() - 1);
                        assert(v[m] == xg[1]);
                    }
                }
            }
        }
    }
}


/// The data of the deriving item.
#[derive(Debug, PartialEq, Eq)]
pub enum DataModel {
    Struct { fields: Vec<FieldModel> },
    Enum,
    Union,
}

/// The item that `#[derive(Builder)]` is applied to: its name, its
/// attributes and its data.
#[derive(Debug, PartialEq, Eq)]
pub struct DeriveInputModel {
    pub ident: String,
    pub attrs: Vec<StructAttrRecord>,
    pub data: DataModel,
}

/// A trait that the builder struct derives.
#[derive(PartialEq, Eq, Structural, Clone, Copy, Debug)]
pub enum DeriveTrait {
    DeriveClone,
    DeriveDebug,
    DeriveDefault,
}

/// How `Struct::builder()` makes an empty builder.
#[derive(PartialEq, Eq, Structural, Clone, Copy, Debug)]
pub enum BuilderFnPlan {
    /// A struct literal of the builder with every field initialised to
    /// `None` (the `init` pieces).
    InitLiteral,
    /// `<Builder as ::core::default::Default>::default()`
    DefaultCall,
}

/// The code that `#[derive(Builder)]` generates for a struct `ty`: the
/// errors, then `impl ty { vis fn builder() -> builder_ident { .. } }`, the
/// builder struct `#[derive(..)] vis struct builder_ident { new }`, and
/// `impl builder_ident { setter getter vis fn build(&mut self) ->
/// Option<ty> { Some(ty { build }) } }`.
#[derive(Debug, PartialEq, Eq)]
pub struct ExpansionPlan {
    pub errors: Vec<ErrorPlan>,
    pub ty: String,
    pub vis: Visibility,
    pub builder_ident: String,
    pub derives: Vec<DeriveTrait>,
    pub builder_fn: BuilderFnPlan,
    pub new: Vec<FieldDecl>,
    pub init: Vec<FieldInit>,
    pub setter: Option<Vec<SetterPlan>>,
    pub getter: Option<Vec<GetterPlan>>,
    pub build: Vec<FieldBuild>,
}

/// What the builder knows of the fields of a struct, in order.
pub open spec fn parsed_fields_spec(fields: Seq<FieldModel>) -> Seq<StructFieldParsed> {
    Seq::new(fields.len(), |i: int| parsed_field_spec(i as usize, fields[i]))
}

/// The fields of a derive input that the builder keeps (not `skip`).
pub open spec fn input_kept_fields(input: DeriveInputModel) -> Seq<StructFieldParsed> {
    kept_spec(parsed_fields_spec(input.data->fields@))
}

/// The errors of the expansion: one for each kept field without an
/// identifier, then those of the struct's attributes, then those of the
/// fields' attributes.
pub open spec fn expansion_errors_spec(input: DeriveInputModel) -> Seq<ErrorPlan> {
    missing_ident_spec(input_kept_fields(input)) + struct_attrs_spec(input.attrs@).1
        + fields_errors_spec(input.data->fields@)
}

/// The derives of the builder struct: `Clone` and `Debug`, and `Default`
/// unless `no_default`.
pub open spec fn derives_spec(no_default: bool) -> Seq<DeriveTrait> {
    if no_default {
        seq![DeriveTrait::DeriveClone, DeriveTrait::DeriveDebug]
    } else {
        seq![DeriveTrait::DeriveClone, DeriveTrait::DeriveDebug, DeriveTrait::DeriveDefault]
    }
}

/// Whether the names that the builder makes for the kept fields of `input`
/// are all identifiers (see `StructFieldParsed::names_valid`).
pub open spec fn input_names_valid(input: DeriveInputModel) -> bool {
    forall|j: int| 0 <= j < input_kept_fields(input).len() ==> #[trigger] input_kept_fields(input)[j].names_valid()
}

/// `r` is the plan of the code generated for `input`:
/// - the builder is named after the struct followed by `Builder`, and its
///   items are public;
/// - it derives `Clone` and `Debug`, and `Default` unless `no_default`, in
///   which case `builder()` initialises the fields itself;
/// - the errors are those of `expansion_errors_spec`;
/// - the builder fields, their initialisations and the `build` entries are
///   those of the kept fields, in order;
/// - the setters are those of the kept fields without `skip_set`, and the
///   getters those of the kept fields without `skip_get`, in order.
pub open spec fn expansion_ok(input: DeriveInputModel, r: ExpansionPlan) -> bool {
    let kept = input_kept_fields(input);
    let no_default = struct_attrs_spec(input.attrs@).0;
    &&& r.ty == input.ident
    &&& r.builder_ident@ == input.ident@ + "Builder"@
    &&& r.vis == Visibility::Public
    &&& r.derives@ == derives_spec(no_default)
    &&& r.builder_fn == if no_default {
        BuilderFnPlan::InitLiteral
    } else {
        BuilderFnPlan::DefaultCall
    }
    &&& r.errors@ == expansion_errors_spec(input)
    &&& r.new@.len() == kept.len()
    &&& r.init@.len() == kept.len()
    &&& r.build@.len() == kept.len()
    &&& forall|j: int| 0 <= j < kept.len() ==> {
        &&& #[trigger] kept[j].decl_ok(r.new@[j])
        &&& kept[j].init_ok(r.init@[j])
        &&& kept[j].build_ok(r.build@[j])
    }
    &&& setters_ok(settable_spec(kept), Visibility::Public, crate::tokens::opt_view(r.setter))
    &&& getters_ok(gettable_spec(kept), Visibility::Public, crate::tokens::opt_view(r.getter))
}

/// Plans the code generated for a struct (see `expansion_ok`). An enum or a
/// union is not supported, and every name made for an accessor must be an
/// identifier (see `expand_checked` for the check).
pub fn do_expend(input: &DeriveInputModel) -> (r: ExpansionPlan)
    requires
        input.data is Struct,
        input_names_valid(*input),
    ensures
        expansion_ok(*input, r),
{
    let fields = match &input.data {
        DataModel::Struct { fields } => fields,
        _ => vstd::pervasive::unreached(),
    };
    let parsed = parse_struct(&input.attrs, fields);
    let ghost pf = parsed_fields_spec(fields@);
    assert(parsed.fields@ =~= pf);
    assert(kept_spec(pf) == input_kept_fields(*input));

    let ty = copy_text(&input.ident);
    let vis = Visibility::Public;
    let mut builder_ident = copy_text(&input.ident);
    builder_ident.append("Builder");

    let mut items: Vec<StructFieldTokens> = Vec::new();
    let mut i: usize = 0;
    while i < parsed.fields.len()
        invariant
            i <= pf.len(),
            parsed.fields@ == pf,
            items@.len() == kept_spec(pf.take(i as int)).len(),
            forall|j: int| 0 <= j < items@.len() ==> #[trigger] kept_spec(pf.take(i as int))[j].tokens_ok(vis, items@[j]@),
            forall|j: int| 0 <= j < kept_spec(pf).len() ==> #[trigger] kept_spec(pf)[j].names_valid(),
        decreases pf.len() - i,
    {
        assert(pf.take(i as int + 1).drop_last() =~= pf.take(i as int));
        let ghost before = kept_spec(pf.take(i as int));
        let field = &parsed.fields[i];
        if !field.skip {
            proof {
                lemma_kept_in_full(pf, i as int);
            }
            let t = generate_field_tokens(&vis, field);
            items.push(t);
            assert(kept_spec(pf.take(i as int + 1)) == before.push(pf[i as int]));
            assert forall|j: int| 0 <= j < items@.len() implies #[trigger] kept_spec(pf.take(i as int + 1))[j].tokens_ok(vis, items@[j]@) by {
                if j < items@.len() - 1 {
                    assert(kept_spec(pf.take(i as int + 1))[j] == before[j]);
                }
            }
        } else {
            assert(kept_spec(pf.take(i as int + 1)) == before);
        }
        i = i + 1;
    }
    assert(pf.take(pf.len() as int) =~= pf);
    let ghost kept = kept_spec(pf);
    let ghost item_views = views(items@);
    proof {
        assert forall|j: int| 0 <= j < kept.len() implies #[trigger] kept[j].tokens_ok(vis, item_views[j]) by {
            assert(kept[j].tokens_ok(vis, items@[j]@));
        }
        lemma_collect_fields(vis, kept, item_views);
    }
    let tokens = StructFieldTokens::from_iter(items);
    let StructFieldTokens { mut errors, new, init, setter, getter, build } = tokens;
    let mut parsed_errors = parsed.errors;
    errors.append(&mut parsed_errors);
    let mut derives: Vec<DeriveTrait> = Vec::new();
    derives.push(DeriveTrait::DeriveClone);
    derives.push(DeriveTrait::DeriveDebug);
    let builder_fn = if parsed.no_default {
        BuilderFnPlan::InitLiteral
    } else {
        derives.push(DeriveTrait::DeriveDefault);
        BuilderFnPlan::DefaultCall
    };
    proof {
        assert(derives@ =~= derives_spec(parsed.no_default));
        assert(errors@ =~= expansion_errors_spec(*input));
    }
    ExpansionPlan { errors, ty, vis, builder_ident, derives, builder_fn, new, init, setter, getter, build }
}

/// A kept field is among the kept fields of the whole list.
proof fn lemma_kept_in_full(fs: Seq<StructFieldParsed>, i: int)
    requires
        0 <= i < fs.len(),
        !fs[i].skip,
    ensures
        exists|j: int| 0 <= j < kept_spec(fs).len() && kept_spec(fs)[j] == fs[i],
    decreases fs.len(),
{
    if i == fs.len() - 1 {
        assert(kept_spec(fs) == kept_spec(fs.drop_last()).push(fs[i]));
        assert(kept_spec(fs)[kept_spec(fs).len() - 1] == fs[i]);
    } else {
        lemma_kept_in_full(fs.drop_last(), i);
        assert(fs.drop_last()[i] == fs[i]);
        let j = choose|j: int| 0 <= j < kept_spec(fs.drop_last()).len() && kept_spec(fs.drop_last())[j] == fs[i];
        if !fs.last().skip {
            assert(kept_spec(fs) == kept_spec(fs.drop_last()).push(fs.last()));
            assert(kept_spec(fs)[j] == kept_spec(fs.drop_last())[j]);
        } else {
            assert(kept_spec(fs) == kept_spec(fs.drop_last()));
        }
        assert(kept_spec(fs)[j] == fs[i]);
    }
}

impl StructFieldParsed {
    /// The names that making this field's accessors checks, in the order
    /// they are made: the setter's where it is named by `each` (unless
    /// `skip_set`), then the shared and the mutable getter's (unless
    /// `skip_get`). A setter named after the field reuses the field's own
    /// identifier, so its name is not checked.
    pub open spec fn checked_names(&self) -> Seq<Seq<char>> {
        let setter: Seq<Seq<char>> = if self.skip_set {
            seq![]
        } else {
            match self.ty {
                StructFieldTypeParsed::Vec { each: Some(e), .. } => seq![e@],
                _ => seq![],
            }
        };
        let getters: Seq<Seq<char>> = if self.skip_get {
            seq![]
        } else {
            seq![self.spec_getter_name(false), self.spec_getter_name(true)]
        };
        setter + getters
    }
}

/// The names checked while making the accessors of the fields `fs`, field by
/// field, skipped fields contributing none.
pub open spec fn checked_names_spec(fs: Seq<StructFieldParsed>) -> Seq<Seq<char>>
    decreases fs.len(),
{
    if fs.len() == 0 {
        seq![]
    } else if fs.last().skip {
        checked_names_spec(fs.drop_last())
    } else {
        checked_names_spec(fs.drop_last()) + fs.last().checked_names()
    }
}

/// The names checked while making the accessors of a derive input's fields.
pub open spec fn input_checked_names(input: DeriveInputModel) -> Seq<Seq<char>> {
    checked_names_spec(parsed_fields_spec(input.data->fields@))
}

/// The names checked for the first `m` fields come first among those for
/// all fields.
proof fn lemma_checked_names_prefix(fs: Seq<StructFieldParsed>, m: int)
    requires
        0 <= m <= fs.len(),
    ensures
        checked_names_spec(fs.take(m)).len() <= checked_names_spec(fs).len(),
        forall|k: int| 0 <= k < checked_names_spec(fs.take(m)).len() ==> #[trigger] checked_names_spec(fs.take(m))[k]
            == checked_names_spec(fs)[k],
    decreases fs.len() - m,
{
    if m < fs.len() {
        lemma_checked_names_prefix(fs, m + 1);
        assert(fs.take(m + 1).drop_last() =~= fs.take(m));
        let a = checked_names_spec(fs.take(m));
        let b = checked_names_spec(fs.take(m + 1));
        assert forall|k: int| 0 <= k < a.len() implies #[trigger] a[k] == checked_names_spec(fs)[k] by {
            assert(a[k] == b[k]);
        }
    } else {
        assert(fs.take(m) =~= fs);
    }
}

/// Plans the code generated for a struct, or, where a name made for an
/// accessor is not an identifier (on which making the accessor panics),
/// returns the first such name in the order the accessors are made: field
/// by field, the setter, then the shared and the mutable getter.
pub fn expand_checked(input: &DeriveInputModel) -> (r: Result<ExpansionPlan, String>)
    requires
        input.data is Struct,
    ensures
        r is Ok <==> input_names_valid(*input),
        match r {
            Ok(plan) => expansion_ok(*input, plan),
            Err(name) => exists|k: int|
                0 <= k < input_checked_names(*input).len() && #[trigger] input_checked_names(*input)[k] == name@
                    && !valid_ident(name@) && forall|j: int|
                    0 <= j < k ==> valid_ident(#[trigger] input_checked_names(*input)[j]),
        },
{
    let fields = match &input.data {
        DataModel::Struct { fields } => fields,
        _ => vstd::pervasive::unreached(),
    };
    let parsed = parse_struct(&input.attrs, fields);
    let ghost pf = parsed_fields_spec(fields@);
    assert(parsed.fields@ =~= pf);
    assert(kept_spec(pf) == input_kept_fields(*input));
    assert(input_checked_names(*input) == checked_names_spec(pf));
    let mut i: usize = 0;
    while i < parsed.fields.len()
        invariant
            i <= pf.len(),
            parsed.fields@ == pf,
            pf == parsed_fields_spec(fields@),
            kept_spec(pf) == input_kept_fields(*input),
            input_checked_names(*input) == checked_names_spec(pf),
            forall|j: int| 0 <= j < kept_spec(pf.take(i as int)).len() ==> #[trigger] kept_spec(pf.take(i as int))[j].names_valid(),
            forall|j: int| 0 <= j < checked_names_spec(pf.take(i as int)).len() ==> valid_ident(
                #[trigger] checked_names_spec(pf.take(i as int))[j],
            ),
        decreases pf.len() - i,
    {
        assert(pf.take(i as int + 1).drop_last() =~= pf.take(i as int));
        let ghost before = checked_names_spec(pf.take(i as int));
        let ghost after = checked_names_spec(pf.take(i as int + 1));
        proof {
            lemma_checked_names_prefix(pf, i as int + 1);
        }
        let field = &parsed.fields[i];
        if !field.skip {
            assert(after == before + field.checked_names());
            proof {
                lemma_kept_in_full(pf, i as int);
            }
            if !field.skip_set {
                if let StructFieldTypeParsed::Vec { each: Some(e), .. } = &field.ty {
                    if !is_valid_ident(e.as_str()) {
                        assert(!field.setter_name_valid());
                        proof {
                            lemma_invalid_kept(pf, i as int);
                            let k = before.len() as int;
                            assert(after[k] == e@);
                            assert(input_checked_names(*input)[k] == after[k]);
                            assert forall|j: int| 0 <= j < k implies valid_ident(#[trigger] input_checked_names(*input)[j]) by {
                                assert(input_checked_names(*input)[j] == after[j]);
                                assert(after[j] == before[j]);
                            }
                        }
                        return Err(copy_text(e));
                    }
                }
            }
            if !field.skip_get {
                let p = field.param_name();
                let mut shared = String::from_str("get_");
                shared.append(p.as_str());
                if !is_valid_ident(shared.as_str()) {
                    proof {
                        lemma_invalid_kept(pf, i as int);
                        let s_len = field.checked_names().len() - 2;
                        let k = before.len() + s_len;
                        assert(after[k] == shared@);
                        assert(input_checked_names(*input)[k] == after[k]);
                        assert forall|j: int| 0 <= j < k implies valid_ident(#[trigger] input_checked_names(*input)[j]) by {
                            assert(input_checked_names(*input)[j] == after[j]);
                            if j >= before.len() {
                                assert(after[j] == field.checked_names()[j - before.len()]);
                            } else {
                                assert(after[j] == before[j]);
                            }
                        }
                    }
                    return Err(shared);
                }
                let mut exclusive = String::from_str("get_mut_");
                exclusive.append(p.as_str());
                if !is_valid_ident(exclusive.as_str()) {
                    proof {
                        lemma_invalid_kept(pf, i as int);
                        let s_len = field.checked_names().len() - 2;
                        let k = before.len() + s_len + 1;
                        assert(after[k] == exclusive@);
                        assert(input_checked_names(*input)[k] == after[k]);
                        assert forall|j: int| 0 <= j < k implies valid_ident(#[trigger] input_checked_names(*input)[j]) by {
                            assert(input_checked_names(*input)[j] == after[j]);
                            if j >= before.len() {
                                assert(after[j] == field.checked_names()[j - before.len()]);
                            } else {
                                assert(after[j] == before[j]);
                            }
                        }
                    }
                    return Err(exclusive);
                }
            }
            assert(field.names_valid());
            assert(kept_spec(pf.take(i as int + 1)) == kept_spec(pf.take(i as int)).push(pf[i as int]));
            assert forall|j: int| 0 <= j < after.len() implies valid_ident(#[trigger] after[j]) by {
                if j >= before.len() {
                    assert(after[j] == field.checked_names()[j - before.len()]);
                } else {
                    assert(after[j] == before[j]);
                }
            }
        } else {
            assert(kept_spec(pf.take(i as int + 1)) == kept_spec(pf.take(i as int)));
            assert(after == before);
        }
        i = i + 1;
    }
    assert(pf.take(pf.len() as int) =~= pf);
    Ok(do_expend(input))
}

/// A kept field whose names are not all identifiers makes the kept fields'
/// names not all identifiers.
proof fn lemma_invalid_kept(fs: Seq<StructFieldParsed>, i: int)
    requires
        0 <= i < fs.len(),
        !fs[i].skip,
        !fs[i].names_valid(),
    ensures
        !(forall|j: int| 0 <= j < kept_spec(fs).len() ==> #[trigger] kept_spec(fs)[j].names_valid()),
{
    lemma_kept_in_full(fs, i);
}

} // verus!
