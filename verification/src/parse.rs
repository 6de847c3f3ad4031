use vstd::prelude::*;

use crate::attrs::{
    is_builder_attr, is_builder_spec, replay_items, FieldAttrError, FieldAttrState, NestedMetaItem,
};
use crate::names::{copy_opt_text, copy_text, text_equals, StructFieldNameParsed};
use crate::types::{classify_spec, StructFieldTypeParsed, TypeHandle, TypeShape};

verus! {

/// An attribute of the deriving struct: its path when that is a single
/// identifier, and the outcome of reading its arguments as one identifier
/// (`Err` when they are not one identifier).
#[derive(Debug, PartialEq, Eq)]
pub struct StructAttrRecord {
    pub path: Option<String>,
    pub arg: Result<String, ()>,
}

/// An attribute of a field: its path when that is a single identifier, the
/// nested items that the attribute parser handed over, in order, and whether
/// the parser then failed on the attribute's syntax by itself.
#[derive(Debug, PartialEq, Eq)]
pub struct FieldAttrRecord {
    pub path: Option<String>,
    pub items: Vec<NestedMetaItem>,
    pub syntax_error: bool,
}

/// A field of the deriving struct: its identifier (none in a tuple struct),
/// the shape of its type and the handle of that type, and its attributes.
#[derive(Debug, PartialEq, Eq)]
pub struct FieldModel {
    pub ident: Option<String>,
    pub ty: TypeShape,
    pub ty_handle: TypeHandle,
    pub attrs: Vec<FieldAttrRecord>,
}

/// Why a field attribute failed.
#[derive(Debug, PartialEq, Eq)]
pub enum FieldAttrFailure {
    /// One of its nested items was refused.
    Meta(FieldAttrError),
    /// The attribute parser failed on the attribute's syntax by itself.
    Syntax,
}

/// An error that the expansion reports.
#[derive(Debug, PartialEq, Eq)]
pub enum ErrorPlan {
    /// `no_default` was given again, in struct attribute `attr`.
    DuplicateNoDefault { attr: usize },
    /// The arguments of struct attribute `attr` are not one identifier.
    StructAttrArgs { attr: usize },
    /// Attribute `attr` of field `field` failed.
    FieldAttr { field: usize, attr: usize, reason: FieldAttrFailure },
    /// Field `field` has no identifier.
    MissingIdent { field: usize },
}

impl ErrorPlan {
    /// The message of an error that this library words itself; `None` for
    /// the errors that the attribute parser words.
    pub open spec fn spec_message(&self) -> Option<Seq<char>> {
        match self {
            ErrorPlan::DuplicateNoDefault { .. } => Some("already set 'no_default'"@),
            ErrorPlan::MissingIdent { .. } => Some(
                "not set ident, please use #[builder(ident = \"new_ident\")]"@,
            ),
            _ => None,
        }
    }

    /// See `spec_message`.
    pub fn message(&self) -> (r: Option<String>)
        ensures
            match r {
                Some(m) => self.spec_message() == Some(m@),
                None => self.spec_message() is None,
            },
    {
        match self {
            ErrorPlan::DuplicateNoDefault { .. } => Some(String::from_str("already set 'no_default'")),
            ErrorPlan::MissingIdent { .. } => Some(
                String::from_str("not set ident, please use #[builder(ident = \"new_ident\")]"),
            ),
            _ => None,
        }
    }
}

/// What the builder needs to know of one field.
#[derive(Debug, PartialEq, Eq)]
pub struct StructFieldParsed {
    pub name: Option<String>,
    pub name_or_index: StructFieldNameParsed,
    /// The position of the field, whose source location errors and generated
    /// code about the field point to.
    pub span: usize,
    pub ty: StructFieldTypeParsed,
    pub skip_set: bool,
    pub skip_get: bool,
    pub skip: bool,
}

/// The parsed struct: the errors met so far, the fields, and whether the
/// builder must not derive `Default`.
#[derive(Debug, PartialEq, Eq)]
pub struct StructParsed {
    pub errors: Vec<ErrorPlan>,
    pub fields: Vec<StructFieldParsed>,
    pub no_default: bool,
}

/// Whether a struct attribute is `#[builder(no_default)]`.
pub open spec fn reads_no_default(a: StructAttrRecord) -> bool {
    is_builder_spec(a.path) && (a.arg matches Ok(ident) && ident@ == "no_default"@)
}

/// The effect of the struct's attributes, in order: whether `no_default` is
/// set, and the errors, one for each `#[builder(..)]` attribute whose
/// arguments are not one identifier and one for each `no_default` after the
/// first. Other identifiers are ignored.
pub open spec fn struct_attrs_spec(attrs: Seq<StructAttrRecord>) -> (bool, Seq<ErrorPlan>)
    decreases attrs.len(),
{
    if attrs.len() == 0 {
        (false, seq![])
    } else {
        let (no_default, errors) = struct_attrs_spec(attrs.drop_last());
        let attr = (attrs.len() - 1) as usize;
        let a = attrs.last();
        if is_builder_spec(a.path) {
            match a.arg {
                Ok(ident) => if ident@ == "no_default"@ {
                    if no_default {
                        (no_default, errors.push(ErrorPlan::DuplicateNoDefault { attr }))
                    } else {
                        (true, errors)
                    }
                } else {
                    (no_default, errors)
                },
                Err(_) => (no_default, errors.push(ErrorPlan::StructAttrArgs { attr })),
            }
        } else {
            (no_default, errors)
        }
    }
}

/// The effect of the attributes of field `field`, in order: its final state
/// and its errors, at most one for each `#[builder(..)]` attribute.
pub open spec fn field_attrs_spec(field: usize, attrs: Seq<FieldAttrRecord>) -> (FieldAttrState, Seq<ErrorPlan>)
    decreases attrs.len(),
{
    if attrs.len() == 0 {
        (FieldAttrState::spec_initial(), seq![])
    } else {
        let (st, errors) = field_attrs_spec(field, attrs.drop_last());
        let attr = (attrs.len() - 1) as usize;
        let a = attrs.last();
        if is_builder_spec(a.path) {
            let (st2, res) = replay_items(st, a.items@);
            match res {
                Err(e) => (st2, errors.push(ErrorPlan::FieldAttr { field, attr, reason: FieldAttrFailure::Meta(e) })),
                Ok(_) => if a.syntax_error {
                    (st2, errors.push(ErrorPlan::FieldAttr { field, attr, reason: FieldAttrFailure::Syntax }))
                } else {
                    (st2, errors)
                },
            }
        } else {
            (st, errors)
        }
    }
}

/// What the builder knows of field number `i`.
pub open spec fn parsed_field_spec(i: usize, f: FieldModel) -> StructFieldParsed {
    let st = field_attrs_spec(i, f.attrs@).0;
    StructFieldParsed {
        name: f.ident,
        name_or_index: match f.ident {
            Some(n) => StructFieldNameParsed::Named(n),
            None => StructFieldNameParsed::Unnamed(i),
        },
        span: i,
        ty: classify_spec(f.ty, f.ty_handle, st.each),
        skip_set: st.skip_set,
        skip_get: st.skip_get,
        skip: st.skip,
    }
}

/// The errors of all fields' attributes, field by field.
pub open spec fn fields_errors_spec(fields: Seq<FieldModel>) -> Seq<ErrorPlan>
    decreases fields.len(),
{
    if fields.len() == 0 {
        seq![]
    } else {
        fields_errors_spec(fields.drop_last()) + field_attrs_spec(
            (fields.len() - 1) as usize,
            fields.last().attrs@,
        ).1
    }
}

/// Applies the attributes of field number `field`.
fn parse_field_attrs(field: usize, attrs: &Vec<FieldAttrRecord>) -> (r: (FieldAttrState, Vec<ErrorPlan>))
    ensures
        (r.0, r.1@) == field_attrs_spec(field, attrs@),
{
    let mut st = FieldAttrState::initial();
    let mut errors: Vec<ErrorPlan> = Vec::new();
    let mut k: usize = 0;
    while k < attrs.len()
        invariant
            k <= attrs@.len(),
            (st, errors@) == field_attrs_spec(field, attrs@.take(k as int)),
        decreases attrs@.len() - k,
    {
        assert(attrs@.take(k as int + 1).drop_last() =~= attrs@.take(k as int));
        let a = &attrs[k];
        if is_builder_attr(&a.path) {
            match st.apply_nested_metas(&a.items) {
                Err(e) => {
                    errors.push(ErrorPlan::FieldAttr { field, attr: k, reason: FieldAttrFailure::Meta(e) });
                },
                Ok(()) => {
                    if a.syntax_error {
                        errors.push(ErrorPlan::FieldAttr { field, attr: k, reason: FieldAttrFailure::Syntax });
                    }
                },
            }
        }
        k = k + 1;
    }
    assert(attrs@.take(attrs@.len() as int) =~= attrs@);
    (st, errors)
}

/// Reads the struct's and its fields' `#[builder(..)]` attributes and
/// classifies the fields. The errors are those of the struct's attributes,
/// then those of each field's attributes, field by field.
pub fn parse_struct(struct_attrs: &Vec<StructAttrRecord>, fields: &Vec<FieldModel>) -> (r: StructParsed)
    ensures
        r.no_default == struct_attrs_spec(struct_attrs@).0,
        r.errors@ == struct_attrs_spec(struct_attrs@).1 + fields_errors_spec(fields@),
        r.fields@.len() == fields@.len(),
        forall|i: int| 0 <= i < fields@.len() ==> r.fields@[i] == parsed_field_spec(i as usize, #[trigger] fields@[i]),
{
    let mut errors: Vec<ErrorPlan> = Vec::new();
    let mut no_default = false;
    let mut k: usize = 0;
    while k < struct_attrs.len()
        invariant
            k <= struct_attrs@.len(),
            (no_default, errors@) == struct_attrs_spec(struct_attrs@.take(k as int)),
        decreases struct_attrs@.len() - k,
    {
        assert(struct_attrs@.take(k as int + 1).drop_last() =~= struct_attrs@.take(k as int));
        let a = &struct_attrs[k];
        if is_builder_attr(&a.path) {
            match &a.arg {
                Ok(ident) => {
                    if text_equals(ident, "no_default") {
                        if no_default {
                            errors.push(ErrorPlan::DuplicateNoDefault { attr: k });
                        } else {
                            no_default = true;
                        }
                    }
                },
                Err(_) => {
                    errors.push(ErrorPlan::StructAttrArgs { attr: k });
                },
            }
        }
        k = k + 1;
    }
    assert(struct_attrs@.take(struct_attrs@.len() as int) =~= struct_attrs@);
    let ghost struct_errors = errors@;

    let mut parsed: Vec<StructFieldParsed> = Vec::new();
    let mut i: usize = 0;
    while i < fields.len()
        invariant
            i <= fields@.len(),
            parsed@.len() == i,
            forall|j: int| 0 <= j < i ==> parsed@[j] == parsed_field_spec(j as usize, #[trigger] fields@[j]),
            errors@ == struct_errors + fields_errors_spec(fields@.take(i as int)),
        decreases fields@.len() - i,
    {
        assert(fields@.take(i as int + 1).drop_last() =~= fields@.take(i as int));
        let f = &fields[i];
        let (st, field_errors) = parse_field_attrs(i, &f.attrs);
        let name_or_index = match &f.ident {
            Some(n) => StructFieldNameParsed::Named(copy_text(n)),
            None => StructFieldNameParsed::Unnamed(i),
        };
        let ty = StructFieldTypeParsed::classify(&f.ty, f.ty_handle, copy_opt_text(&st.each));
        parsed.push(StructFieldParsed {
            name: copy_opt_text(&f.ident),
            name_or_index,
            span: i,
            ty,
            skip_set: st.skip_set,
            skip_get: st.skip_get,
            skip: st.skip,
        });
        let mut fe = field_errors;
        errors.append(&mut fe);
        i = i + 1;
    }
    assert(fields@.take(fields@.len() as int) =~= fields@);
    StructParsed { errors, fields: parsed, no_default }
}

} // verus!
