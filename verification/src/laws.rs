//! Properties that hold across the functions of this library.
use vstd::prelude::*;

use crate::attrs::{is_builder_spec, meta_step, replay_items, FieldAttrState, NestedMetaItem};
use crate::expand::{expansion_ok, DeriveInputModel, GetterBody, GetterPlan, SetterBody, SetterPlan, Visibility};
use crate::names::{decimal, digit_char, valid_ident, xid_continue, StructFieldNameParsed};
use crate::parse::{
    field_attrs_spec, fields_errors_spec, parsed_field_spec, reads_no_default, struct_attrs_spec, ErrorPlan,
    FieldAttrRecord, FieldModel, StructAttrRecord, StructFieldParsed,
};
use crate::tokens::{
    empty_tokens, from_iter_spec, merge_opt, merge_spec, FieldBuild, StructFieldTokensView,
};
use crate::types::{
    classify_spec, GenericArgShape, PathArgsShape, PathSegmentShape, StructFieldTypeParsed, TakeKind, TypeExpr,
    TypeHandle, TypeShape,
};

verus! {

/// A field's setter fits the field's place in the builder: a setter that
/// stores `Some(param)` has a parameter `T` for a builder field
/// `Option<T>`; one that adds one item has a parameter `T` for a builder
/// field `Vec<T>`; one that adds all items has a parameter `Vec<T>` for a
/// builder field `Vec<T>`.
pub proof fn law_setter_fits_builder_field(f: StructFieldParsed, vis: Visibility, p: SetterPlan)
    requires
        f.setter_ok(vis, p),
    ensures
        p.body == SetterBody::AssignSome ==> p.param_ty == TypeExpr::Plain(p.param_ty.spec_handle())
            && f.ty.spec_ty_to_builder() == TypeExpr::OptionOf(p.param_ty.spec_handle()),
        p.body == SetterBody::ExtendOne ==> p.param_ty == TypeExpr::Plain(p.param_ty.spec_handle())
            && f.ty.spec_ty_to_builder() == TypeExpr::VecOf(p.param_ty.spec_handle()),
        p.body == SetterBody::ExtendAll ==> p.param_ty == TypeExpr::VecOf(p.param_ty.spec_handle())
            && f.ty.spec_ty_to_builder() == p.param_ty,
{
}

/// A field's getters read the field's place in the builder: `as_ref` /
/// `as_mut` give `Option<&T>` / `Option<&mut T>` of a builder field
/// `Option<T>`, and both getters of a builder field `Vec<T>` give `&[T]`.
pub proof fn law_getter_reads_builder_field(f: StructFieldParsed, vis: Visibility, is_mut: bool, g: GetterPlan)
    requires
        f.getter_ok(vis, is_mut, g),
    ensures
        g.body == GetterBody::AsRef ==> !is_mut && f.ty.spec_ty_to_builder() == TypeExpr::OptionOf(g.ret_ty.spec_handle())
            && g.ret_ty == TypeExpr::OptionRef(g.ret_ty.spec_handle()),
        g.body == GetterBody::AsMut ==> is_mut && f.ty.spec_ty_to_builder() == TypeExpr::OptionOf(g.ret_ty.spec_handle())
            && g.ret_ty == TypeExpr::OptionRefMut(g.ret_ty.spec_handle()),
        (g.body == GetterBody::Ref || g.body == GetterBody::RefMut) ==> f.ty.spec_ty_to_builder()
            == TypeExpr::VecOf(g.ret_ty.spec_handle()) && g.ret_ty == TypeExpr::SliceRef(g.ret_ty.spec_handle()),
{
}

/// `build` takes each field out of its builder field: with `Option::take`
/// from a builder field `Option<T>` (and gives `None` while a field whose
/// own type is not an `Option` or a `Vec` is unset), and with `mem::take`
/// from a builder field `Vec<T>`.
pub proof fn law_build_takes_builder_field(f: StructFieldParsed, b: FieldBuild)
    requires
        f.build_ok(b),
    ensures
        b.take.kind matches TakeKind::OptionTakeRequired(h) ==> f.ty.spec_ty_to_builder() == TypeExpr::OptionOf(h)
            && f.ty is Normal,
        b.take.kind matches TakeKind::OptionTake(h) ==> f.ty.spec_ty_to_builder() == TypeExpr::OptionOf(h)
            && f.ty is Option,
        b.take.kind matches TakeKind::MemTake(h) ==> f.ty.spec_ty_to_builder() == TypeExpr::VecOf(h),
{
}

proof fn lemma_decimal_len(n: nat)
    ensures
        decimal(n).len() >= 1,
        n >= 10 ==> decimal(n).len() >= 2,
    decreases n,
{
    if n >= 10 {
        lemma_decimal_len(n / 10);
    }
}

proof fn lemma_decimal_injective(a: nat, b: nat)
    requires
        decimal(a) == decimal(b),
    ensures
        a == b,
    decreases a,
{
    lemma_decimal_len(a);
    lemma_decimal_len(b);
    if a < 10 && b < 10 {
        assert(decimal(a)[0] == digit_char(a));
        assert(decimal(b)[0] == digit_char(b));
    } else if a >= 10 && b >= 10 {
        assert(decimal(a).last() == digit_char(a % 10));
        assert(decimal(b).last() == digit_char(b % 10));
        assert(decimal(a).drop_last() =~= decimal(a / 10));
        assert(decimal(b).drop_last() =~= decimal(b / 10));
        lemma_decimal_injective(a / 10, b / 10);
    }
}

/// Distinct fields of a tuple struct get distinct identifiers.
pub proof fn law_unnamed_idents_distinct(i: usize, j: usize, prefix: Seq<char>)
    requires
        i != j,
    ensures
        StructFieldNameParsed::Unnamed(i).ident_spec(prefix) != StructFieldNameParsed::Unnamed(j).ident_spec(prefix),
{
    if StructFieldNameParsed::Unnamed(i).ident_spec(prefix) == StructFieldNameParsed::Unnamed(j).ident_spec(prefix) {
        let si = prefix + decimal(i as nat);
        let sj = prefix + decimal(j as nat);
        assert(decimal(i as nat) =~= si.skip(prefix.len() as int));
        assert(decimal(j as nat) =~= sj.skip(prefix.len() as int));
        lemma_decimal_injective(i as nat, j as nat);
    }
}

/// An item of a field attribute is accepted at most once: once it has been
/// accepted, the same item is refused.
pub proof fn law_item_accepted_once(st: FieldAttrState, item: NestedMetaItem)
    requires
        meta_step(st, item).1 is Ok,
    ensures
        meta_step(meta_step(st, item).0, item).1 is Err,
{
}

/// A refused item changes nothing.
pub proof fn law_refused_item_changes_nothing(st: FieldAttrState, item: NestedMetaItem)
    requires
        meta_step(st, item).1 is Err,
    ensures
        meta_step(st, item).0 == st,
{
}

/// Within one attribute, the items after the first refused one have no
/// effect.
pub proof fn law_refusal_ends_attribute(st: FieldAttrState, items: Seq<NestedMetaItem>, rest: Seq<NestedMetaItem>)
    requires
        replay_items(st, items).1 is Err,
    ensures
        replay_items(st, items + rest) == replay_items(st, items),
    decreases rest.len(),
{
    if rest.len() > 0 {
        law_refusal_ends_attribute(st, items, rest.drop_last());
        assert((items + rest).drop_last() =~= items + rest.drop_last());
    } else {
        assert(items + rest =~= items);
    }
}

/// `no_default` is set exactly when some `#[builder(..)]` attribute of the
/// struct reads `no_default`.
pub proof fn law_no_default_iff_given(attrs: Seq<StructAttrRecord>)
    ensures
        struct_attrs_spec(attrs).0 <==> exists|k: int|
            0 <= k < attrs.len() && reads_no_default(#[trigger] attrs[k]),
    decreases attrs.len(),
{
    if attrs.len() > 0 {
        let before = attrs.drop_last();
        law_no_default_iff_given(before);
        if struct_attrs_spec(before).0 {
            let k = choose|k: int|
                0 <= k < before.len() && reads_no_default(#[trigger] before[k]);
            assert(attrs[k] == before[k]);
        }
        if exists|k: int|
            0 <= k < attrs.len() && reads_no_default(#[trigger] attrs[k]) {
            let k = choose|k: int|
                0 <= k < attrs.len() && reads_no_default(#[trigger] attrs[k]);
            if k < attrs.len() - 1 {
                assert(before[k] == attrs[k]);
            }
        }
    }
}

proof fn lemma_merge_opt_assoc<T>(a: Option<Seq<T>>, b: Option<Seq<T>>, c: Option<Seq<T>>)
    ensures
        merge_opt(merge_opt(a, b), c) == merge_opt(a, merge_opt(b, c)),
{
    match (a, b, c) {
        (Some(x), Some(y), Some(z)) => {
            assert((x + y) + z =~= x + (y + z));
        },
        _ => {},
    }
}

proof fn lemma_merge_assoc(a: StructFieldTokensView, b: StructFieldTokensView, c: StructFieldTokensView)
    ensures
        merge_spec(merge_spec(a, b), c) == merge_spec(a, merge_spec(b, c)),
{
    lemma_merge_opt_assoc(a.setter, b.setter, c.setter);
    lemma_merge_opt_assoc(a.getter, b.getter, c.getter);
    assert((a.errors + b.errors) + c.errors =~= a.errors + (b.errors + c.errors));
    assert((a.new + b.new) + c.new =~= a.new + (b.new + c.new));
    assert((a.init + b.init) + c.init =~= a.init + (b.init + c.init));
    assert((a.build + b.build) + c.build =~= a.build + (b.build + c.build));
}

/// Collecting the pieces of two runs of fields one after the other gives the
/// pieces of the first run followed by those of the second.
pub proof fn law_from_iter_append(a: Seq<StructFieldTokensView>, b: Seq<StructFieldTokensView>)
    ensures
        from_iter_spec(a + b) == merge_spec(from_iter_spec(a), from_iter_spec(b)),
    decreases b.len(),
{
    if b.len() == 0 {
        let x = from_iter_spec(a);
        assert(a + b =~= a);
        assert(x.errors + seq![] =~= x.errors);
        assert(x.new + seq![] =~= x.new);
        assert(x.init + seq![] =~= x.init);
        assert(x.build + seq![] =~= x.build);
        assert(merge_spec(x, empty_tokens()) == x);
    } else {
        law_from_iter_append(a, b.drop_last());
        assert((a + b).drop_last() =~= a + b.drop_last());
        assert((a + b).last() == b.last());
        lemma_merge_assoc(from_iter_spec(a), from_iter_spec(b.drop_last()), b.last());
    }
}

/// The `#[builder(..)]` attributes of a struct, in order.
pub open spec fn builder_struct_attrs(attrs: Seq<StructAttrRecord>) -> Seq<StructAttrRecord>
    decreases attrs.len(),
{
    if attrs.len() == 0 {
        seq![]
    } else if is_builder_spec(attrs.last().path) {
        builder_struct_attrs(attrs.drop_last()).push(attrs.last())
    } else {
        builder_struct_attrs(attrs.drop_last())
    }
}

/// The positions of the `#[builder(..)]` attributes among all attributes of
/// a struct.
pub open spec fn builder_struct_positions(attrs: Seq<StructAttrRecord>) -> Seq<usize>
    decreases attrs.len(),
{
    if attrs.len() == 0 {
        seq![]
    } else if is_builder_spec(attrs.last().path) {
        builder_struct_positions(attrs.drop_last()).push((attrs.len() - 1) as usize)
    } else {
        builder_struct_positions(attrs.drop_last())
    }
}

/// The `#[builder(..)]` attributes of a field, in order.
pub open spec fn builder_field_attrs(attrs: Seq<FieldAttrRecord>) -> Seq<FieldAttrRecord>
    decreases attrs.len(),
{
    if attrs.len() == 0 {
        seq![]
    } else if is_builder_spec(attrs.last().path) {
        builder_field_attrs(attrs.drop_last()).push(attrs.last())
    } else {
        builder_field_attrs(attrs.drop_last())
    }
}

/// The positions of the `#[builder(..)]` attributes among all attributes of
/// a field.
pub open spec fn builder_field_positions(attrs: Seq<FieldAttrRecord>) -> Seq<usize>
    decreases attrs.len(),
{
    if attrs.len() == 0 {
        seq![]
    } else if is_builder_spec(attrs.last().path) {
        builder_field_positions(attrs.drop_last()).push((attrs.len() - 1) as usize)
    } else {
        builder_field_positions(attrs.drop_last())
    }
}

/// The error `e` with the attribute it points to, `attr`, replaced by
/// `pos[attr]`.
pub open spec fn renumber_error(e: ErrorPlan, pos: Seq<usize>) -> ErrorPlan {
    match e {
        ErrorPlan::DuplicateNoDefault { attr } => ErrorPlan::DuplicateNoDefault { attr: pos[attr as int] },
        ErrorPlan::StructAttrArgs { attr } => ErrorPlan::StructAttrArgs { attr: pos[attr as int] },
        ErrorPlan::FieldAttr { field, attr, reason } => ErrorPlan::FieldAttr { field, attr: pos[attr as int], reason },
        ErrorPlan::MissingIdent { field } => ErrorPlan::MissingIdent { field },
    }
}

/// The errors `errs`, each renumbered through `pos`.
pub open spec fn renumber_errors(errs: Seq<ErrorPlan>, pos: Seq<usize>) -> Seq<ErrorPlan> {
    errs.map_values(|e: ErrorPlan| renumber_error(e, pos))
}

/// The error `e` without the position of the attribute it points to: what
/// it reports and about which field.
pub open spec fn error_without_position(e: ErrorPlan) -> ErrorPlan {
    match e {
        ErrorPlan::DuplicateNoDefault { .. } => ErrorPlan::DuplicateNoDefault { attr: 0 },
        ErrorPlan::StructAttrArgs { .. } => ErrorPlan::StructAttrArgs { attr: 0 },
        ErrorPlan::FieldAttr { field, reason, .. } => ErrorPlan::FieldAttr { field, attr: 0, reason },
        ErrorPlan::MissingIdent { field } => ErrorPlan::MissingIdent { field },
    }
}

/// The errors `errs` without attribute positions.
pub open spec fn errors_without_positions(errs: Seq<ErrorPlan>) -> Seq<ErrorPlan> {
    errs.map_values(|e: ErrorPlan| error_without_position(e))
}

/// Whether `e` points to an attribute before position `n` (if to any).
pub open spec fn points_below(e: ErrorPlan, n: int) -> bool {
    match e {
        ErrorPlan::DuplicateNoDefault { attr } => attr < n,
        ErrorPlan::StructAttrArgs { attr } => attr < n,
        ErrorPlan::FieldAttr { attr, .. } => attr < n,
        ErrorPlan::MissingIdent { .. } => true,
    }
}

proof fn lemma_struct_positions(attrs: Seq<StructAttrRecord>)
    ensures
        builder_struct_positions(attrs).len() == builder_struct_attrs(attrs).len(),
        builder_struct_attrs(attrs).len() <= attrs.len(),
    decreases attrs.len(),
{
    if attrs.len() > 0 {
        lemma_struct_positions(attrs.drop_last());
    }
}

proof fn lemma_field_positions(attrs: Seq<FieldAttrRecord>)
    ensures
        builder_field_positions(attrs).len() == builder_field_attrs(attrs).len(),
        builder_field_attrs(attrs).len() <= attrs.len(),
    decreases attrs.len(),
{
    if attrs.len() > 0 {
        lemma_field_positions(attrs.drop_last());
    }
}

proof fn lemma_struct_errors_below(attrs: Seq<StructAttrRecord>)
    ensures
        forall|k: int| 0 <= k < struct_attrs_spec(attrs).1.len() ==> points_below(
            #[trigger] struct_attrs_spec(attrs).1[k],
            attrs.len() as int,
        ),
    decreases attrs.len(),
{
    if attrs.len() > 0 {
        lemma_struct_errors_below(attrs.drop_last());
        let before = struct_attrs_spec(attrs.drop_last()).1;
        let after = struct_attrs_spec(attrs).1;
        assert forall|k: int| 0 <= k < after.len() implies points_below(#[trigger] after[k], attrs.len() as int) by {
            if k < before.len() {
                assert(after[k] == before[k]);
                assert(points_below(before[k], attrs.len() - 1));
            }
        }
    }
}

proof fn lemma_field_errors_below(field: usize, attrs: Seq<FieldAttrRecord>)
    ensures
        forall|k: int| 0 <= k < field_attrs_spec(field, attrs).1.len() ==> points_below(
            #[trigger] field_attrs_spec(field, attrs).1[k],
            attrs.len() as int,
        ),
    decreases attrs.len(),
{
    if attrs.len() > 0 {
        lemma_field_errors_below(field, attrs.drop_last());
        let before = field_attrs_spec(field, attrs.drop_last()).1;
        let after = field_attrs_spec(field, attrs).1;
        assert forall|k: int| 0 <= k < after.len() implies points_below(#[trigger] after[k], attrs.len() as int) by {
            if k < before.len() {
                assert(after[k] == before[k]);
                assert(points_below(before[k], attrs.len() - 1));
            }
        }
    }
}

proof fn lemma_renumber_extended(errs: Seq<ErrorPlan>, pos: Seq<usize>, p: usize)
    requires
        forall|k: int| 0 <= k < errs.len() ==> points_below(#[trigger] errs[k], pos.len() as int),
    ensures
        renumber_errors(errs, pos.push(p)) == renumber_errors(errs, pos),
{
    assert forall|k: int| 0 <= k < errs.len() implies renumber_error(errs[k], pos.push(p)) == renumber_error(
        errs[k],
        pos,
    ) by {
        assert(points_below(errs[k], pos.len() as int));
    }
    assert(renumber_errors(errs, pos.push(p)) =~= renumber_errors(errs, pos));
}

proof fn lemma_renumber_push(errs: Seq<ErrorPlan>, pos: Seq<usize>)
    ensures
        forall|e: ErrorPlan| #[trigger] renumber_errors(errs.push(e), pos) == renumber_errors(errs, pos).push(
            renumber_error(e, pos),
        ),
{
    assert forall|e: ErrorPlan| #[trigger] renumber_errors(errs.push(e), pos) == renumber_errors(errs, pos).push(
        renumber_error(e, pos),
    ) by {
        assert(renumber_errors(errs.push(e), pos) =~= renumber_errors(errs, pos).push(renumber_error(e, pos)));
    }
}

/// Attributes of the struct other than `#[builder(..)]` change nothing:
/// `no_default` is what the builder attributes alone give, and so are the
/// errors, each pointing to the same builder attribute (renumbered to its
/// position among all attributes).
pub proof fn law_struct_attrs_ignore_others(attrs: Seq<StructAttrRecord>)
    requires
        attrs.len() <= usize::MAX,
    ensures
        struct_attrs_spec(attrs).0 == struct_attrs_spec(builder_struct_attrs(attrs)).0,
        struct_attrs_spec(attrs).1 == renumber_errors(
            struct_attrs_spec(builder_struct_attrs(attrs)).1,
            builder_struct_positions(attrs),
        ),
    decreases attrs.len(),
{
    if attrs.len() == 0 {
        assert(renumber_errors(seq![], seq![]) =~= seq![]);
    } else {
        let d = attrs.drop_last();
        law_struct_attrs_ignore_others(d);
        let bd = builder_struct_attrs(d);
        let pd = builder_struct_positions(d);
        lemma_struct_positions(d);
        if is_builder_spec(attrs.last().path) {
            let b = builder_struct_attrs(attrs);
            let p = builder_struct_positions(attrs);
            let k = (attrs.len() - 1) as usize;
            assert(b == bd.push(attrs.last()));
            assert(b.drop_last() == bd);
            assert(b.last() == attrs.last());
            assert(p == pd.push(k));
            assert((b.len() - 1) as usize == pd.len());
            assert(p[pd.len() as int] == k);
            lemma_struct_errors_below(bd);
            lemma_renumber_extended(struct_attrs_spec(bd).1, pd, k);
            lemma_renumber_push(struct_attrs_spec(bd).1, p);
        }
    }
}

/// Attributes of a field other than `#[builder(..)]` change nothing: the
/// field's flags and `each` name are what the builder attributes alone give,
/// and so are the errors, each pointing to the same builder attribute
/// (renumbered to its position among all attributes).
pub proof fn law_field_attrs_ignore_others(field: usize, attrs: Seq<FieldAttrRecord>)
    requires
        attrs.len() <= usize::MAX,
    ensures
        field_attrs_spec(field, attrs).0 == field_attrs_spec(field, builder_field_attrs(attrs)).0,
        field_attrs_spec(field, attrs).1 == renumber_errors(
            field_attrs_spec(field, builder_field_attrs(attrs)).1,
            builder_field_positions(attrs),
        ),
    decreases attrs.len(),
{
    if attrs.len() == 0 {
        assert(renumber_errors(seq![], seq![]) =~= seq![]);
    } else {
        let d = attrs.drop_last();
        law_field_attrs_ignore_others(field, d);
        let bd = builder_field_attrs(d);
        let pd = builder_field_positions(d);
        lemma_field_positions(d);
        if is_builder_spec(attrs.last().path) {
            let b = builder_field_attrs(attrs);
            let p = builder_field_positions(attrs);
            let k = (attrs.len() - 1) as usize;
            assert(b == bd.push(attrs.last()));
            assert(b.drop_last() == bd);
            assert(b.last() == attrs.last());
            assert(p == pd.push(k));
            assert((b.len() - 1) as usize == pd.len());
            assert(p[pd.len() as int] == k);
            lemma_field_errors_below(field, bd);
            lemma_renumber_extended(field_attrs_spec(field, bd).1, pd, k);
            lemma_renumber_push(field_attrs_spec(field, bd).1, p);
        }
    }
}

proof fn lemma_without_positions_renumbered(errs: Seq<ErrorPlan>, pos: Seq<usize>)
    ensures
        errors_without_positions(renumber_errors(errs, pos)) == errors_without_positions(errs),
{
    assert(errors_without_positions(renumber_errors(errs, pos)) =~= errors_without_positions(errs));
}

proof fn lemma_without_positions_concat(a: Seq<ErrorPlan>, b: Seq<ErrorPlan>)
    ensures
        errors_without_positions(a + b) == errors_without_positions(a) + errors_without_positions(b),
{
    assert(errors_without_positions(a + b) =~= errors_without_positions(a) + errors_without_positions(b));
}

/// Two lists of fields that agree field by field on everything but
/// attributes other than `#[builder(..)]` have the same field errors, up to
/// the attribute positions.
proof fn lemma_fields_errors_ignore_others(fields1: Seq<FieldModel>, fields2: Seq<FieldModel>)
    requires
        fields1.len() == fields2.len(),
        fields1.len() <= usize::MAX,
        forall|i: int| 0 <= i < fields1.len() ==> (#[trigger] fields1[i]).attrs@.len() <= usize::MAX
            && fields2[i].attrs@.len() <= usize::MAX,
        forall|i: int| 0 <= i < fields1.len() ==> builder_field_attrs(#[trigger] fields1[i].attrs@) == builder_field_attrs(
            fields2[i].attrs@,
        ),
    ensures
        errors_without_positions(fields_errors_spec(fields1)) == errors_without_positions(fields_errors_spec(fields2)),
    decreases fields1.len(),
{
    if fields1.len() > 0 {
        let n = fields1.len() - 1;
        assert forall|i: int| 0 <= i < fields1.drop_last().len() implies builder_field_attrs(
            #[trigger] fields1.drop_last()[i].attrs@,
        ) == builder_field_attrs(fields2.drop_last()[i].attrs@) by {
            assert(fields1.drop_last()[i] == fields1[i]);
            assert(fields2.drop_last()[i] == fields2[i]);
            assert(builder_field_attrs(fields1[i].attrs@) == builder_field_attrs(fields2[i].attrs@));
        }
        assert forall|i: int| 0 <= i < fields1.drop_last().len() implies (#[trigger] fields1.drop_last()[i]).attrs@.len()
            <= usize::MAX && fields2.drop_last()[i].attrs@.len() <= usize::MAX by {
            assert(fields1.drop_last()[i] == fields1[i]);
            assert(fields2.drop_last()[i] == fields2[i]);
        }
        assert(fields1[n].attrs@.len() <= usize::MAX && fields2[n].attrs@.len() <= usize::MAX);
        lemma_fields_errors_ignore_others(fields1.drop_last(), fields2.drop_last());
        let a1 = fields1.last().attrs@;
        let a2 = fields2.last().attrs@;
        assert(builder_field_attrs(fields1[n].attrs@) == builder_field_attrs(fields2[n].attrs@));
        law_field_attrs_ignore_others(n as usize, a1);
        law_field_attrs_ignore_others(n as usize, a2);
        lemma_without_positions_renumbered(field_attrs_spec(n as usize, builder_field_attrs(a1)).1, builder_field_positions(a1));
        lemma_without_positions_renumbered(field_attrs_spec(n as usize, builder_field_attrs(a2)).1, builder_field_positions(a2));
        lemma_without_positions_concat(fields_errors_spec(fields1.drop_last()), field_attrs_spec(n as usize, a1).1);
        lemma_without_positions_concat(fields_errors_spec(fields2.drop_last()), field_attrs_spec(n as usize, a2).1);
    }
}

/// Adding or removing attributes other than `#[builder(..)]`, on the struct
/// or on any field, changes nothing that `parse_struct` gives but the
/// positions that its errors point to: not `no_default`, not any field's
/// name, type or flags, and not the errors (what they report, about which
/// field, and in which order).
pub proof fn law_parse_ignores_other_attributes(
    attrs1: Seq<StructAttrRecord>,
    attrs2: Seq<StructAttrRecord>,
    fields1: Seq<FieldModel>,
    fields2: Seq<FieldModel>,
)
    requires
        attrs1.len() <= usize::MAX,
        attrs2.len() <= usize::MAX,
        fields1.len() <= usize::MAX,
        forall|i: int| 0 <= i < fields1.len() ==> (#[trigger] fields1[i]).attrs@.len() <= usize::MAX
            && fields2[i].attrs@.len() <= usize::MAX,
        builder_struct_attrs(attrs1) == builder_struct_attrs(attrs2),
        fields1.len() == fields2.len(),
        forall|i: int| 0 <= i < fields1.len() ==> {
            &&& (#[trigger] fields1[i]).ident == fields2[i].ident
            &&& fields1[i].ty == fields2[i].ty
            &&& fields1[i].ty_handle == fields2[i].ty_handle
            &&& builder_field_attrs(fields1[i].attrs@) == builder_field_attrs(fields2[i].attrs@)
        },
    ensures
        struct_attrs_spec(attrs1).0 == struct_attrs_spec(attrs2).0,
        forall|i: int| 0 <= i < fields1.len() ==> parsed_field_spec(i as usize, #[trigger] fields1[i]) == parsed_field_spec(
            i as usize,
            fields2[i],
        ),
        errors_without_positions(struct_attrs_spec(attrs1).1 + fields_errors_spec(fields1)) == errors_without_positions(
            struct_attrs_spec(attrs2).1 + fields_errors_spec(fields2),
        ),
{
    law_struct_attrs_ignore_others(attrs1);
    law_struct_attrs_ignore_others(attrs2);
    assert forall|i: int| 0 <= i < fields1.len() implies parsed_field_spec(i as usize, #[trigger] fields1[i])
        == parsed_field_spec(i as usize, fields2[i]) by {
        assert(fields1[i].attrs@.len() <= usize::MAX && fields2[i].attrs@.len() <= usize::MAX);
        law_field_attrs_ignore_others(i as usize, fields1[i].attrs@);
        law_field_attrs_ignore_others(i as usize, fields2[i].attrs@);
    }
    assert forall|i: int| 0 <= i < fields1.len() implies builder_field_attrs(#[trigger] fields1[i].attrs@)
        == builder_field_attrs(fields2[i].attrs@) by {
        assert(builder_field_attrs(fields1[i].attrs@) == builder_field_attrs(fields2[i].attrs@));
    }
    lemma_fields_errors_ignore_others(fields1, fields2);
    let b = builder_struct_attrs(attrs1);
    lemma_without_positions_renumbered(struct_attrs_spec(b).1, builder_struct_positions(attrs1));
    lemma_without_positions_renumbered(struct_attrs_spec(b).1, builder_struct_positions(attrs2));
    lemma_without_positions_concat(struct_attrs_spec(attrs1).1, fields_errors_spec(fields1));
    lemma_without_positions_concat(struct_attrs_spec(attrs2).1, fields_errors_spec(fields2));
}

/// A field whose type is a path ending in `Vec<T, ..>` is a `Vec` field with
/// item type `T`, whether or not an `each` name was given (the name is kept
/// as given).
pub proof fn law_vec_type_is_vec_field(
    segments: Vec<PathSegmentShape>,
    args: Vec<GenericArgShape>,
    inner: TypeHandle,
    handle: TypeHandle,
    each: Option<String>,
)
    requires
        segments@.len() > 0,
        segments@.last().ident@ == seq!['V', 'e', 'c'],
        segments@.last().arguments == PathArgsShape::AngleBracketed(args),
        args@.len() > 0,
        args@[0] == GenericArgShape::Type(inner),
    ensures
        classify_spec(TypeShape::Path(segments), handle, each) == (StructFieldTypeParsed::Vec { inner_ty: inner, each }),
{
}

/// A field whose type is a path ending in `Option<T>` is an `Option` field
/// with inner type `T`, whatever `each` name was given.
pub proof fn law_option_type_is_option_field(
    segments: Vec<PathSegmentShape>,
    args: Vec<GenericArgShape>,
    inner: TypeHandle,
    handle: TypeHandle,
    each: Option<String>,
)
    requires
        segments@.len() > 0,
        segments@.last().ident@ == seq!['O', 'p', 't', 'i', 'o', 'n'],
        segments@.last().arguments == PathArgsShape::AngleBracketed(args),
        args@.len() > 0,
        args@[0] == GenericArgShape::Type(inner),
    ensures
        classify_spec(TypeShape::Path(segments), handle, each) == (StructFieldTypeParsed::Option { inner_ty: inner }),
{
}

/// A field whose type is not a path, or a path whose last segment is named
/// neither `Option` nor `Vec`, is a plain value field of its own type.
pub proof fn law_other_type_is_value_field(ty: TypeShape, handle: TypeHandle, each: Option<String>)
    requires
        ty matches TypeShape::Path(segments) ==> segments@.len() == 0 || (segments@.last().ident@ != seq![
            'O',
            'p',
            't',
            'i',
            'o',
            'n',
        ] && segments@.last().ident@ != seq!['V', 'e', 'c']),
    ensures
        classify_spec(ty, handle, each) == (StructFieldTypeParsed::Normal { ty: handle }),
{
}

/// The kind of a field (value, `Option` or `Vec`) and the type it refers to
/// do not depend on the `each` name.
pub proof fn law_classify_kind_ignores_each(ty: TypeShape, handle: TypeHandle, each1: Option<String>, each2: Option<String>)
    ensures
        classify_spec(ty, handle, each1) is Normal <==> classify_spec(ty, handle, each2) is Normal,
        classify_spec(ty, handle, each1) is Option <==> classify_spec(ty, handle, each2) is Option,
        classify_spec(ty, handle, each1) is Vec <==> classify_spec(ty, handle, each2) is Vec,
        classify_spec(ty, handle, each1).spec_ty_to_builder() == classify_spec(ty, handle, each2).spec_ty_to_builder(),
{
}

/// Every setter has the visibility it is made with, whatever the field.
pub proof fn law_setter_has_given_visibility(f: StructFieldParsed, vis: Visibility, p: SetterPlan)
    requires
        f.setter_ok(vis, p),
    ensures
        p.vis == vis,
{
}

/// Both getters, shared and mutable, have the visibility they are made
/// with, whatever the field.
pub proof fn law_getter_has_given_visibility(f: StructFieldParsed, vis: Visibility, is_mut: bool, g: GetterPlan)
    requires
        f.getter_ok(vis, is_mut, g),
    ensures
        g.vis == vis,
{
}

/// Everything the expansion generates is public: the builder, and every
/// setter and getter in it.
pub proof fn law_expansion_is_public(input: DeriveInputModel, plan: crate::expand::ExpansionPlan)
    requires
        expansion_ok(input, plan),
    ensures
        plan.vis == Visibility::Public,
        forall|k: int| 0 <= k < crate::tokens::opt_view(plan.setter)->0.len() && plan.setter is Some ==> (
        #[trigger] crate::tokens::opt_view(plan.setter)->0[k]).vis == Visibility::Public,
        forall|k: int| 0 <= k < crate::tokens::opt_view(plan.getter)->0.len() && plan.getter is Some ==> (
        #[trigger] crate::tokens::opt_view(plan.getter)->0[k]).vis == Visibility::Public,
{
    let kept = crate::expand::input_kept_fields(input);
    if plan.setter is Some {
        let v = crate::tokens::opt_view(plan.setter)->0;
        let fs = crate::expand::settable_spec(kept);
        assert forall|k: int| 0 <= k < v.len() implies (#[trigger] v[k]).vis == Visibility::Public by {
            assert(fs[k].setter_ok(Visibility::Public, v[k]));
        }
    }
    if plan.getter is Some {
        let v = crate::tokens::opt_view(plan.getter)->0;
        let fs = crate::expand::gettable_spec(kept);
        assert forall|m: int| 0 <= m < v.len() implies (#[trigger] v[m]).vis == Visibility::Public by {
            assert(fs[m / 2].getter_ok(Visibility::Public, m % 2 == 1, v[m]));
        }
    }
}

/// Identifier validity has no length limit: a valid identifier followed by
/// any XID_Continue characters is still valid (so `get_` or `get_mut_`
/// followed by a field's name is valid when the field's name is made of
/// XID_Continue characters).
pub proof fn law_ident_extends(a: Seq<char>, b: Seq<char>)
    requires
        valid_ident(a),
        forall|i: int| 0 <= i < b.len() ==> xid_continue(#[trigger] b[i]),
    ensures
        valid_ident(a + b),
{
    let s = a + b;
    assert(s[0] == a[0]);
    let k = choose|i: int| 0 <= i < a.len() && !('0' <= #[trigger] a[i] <= '9');
    assert(s[k] == a[k]);
    assert forall|i: int| 1 <= i < s.len() implies xid_continue(#[trigger] s[i]) by {
        if i < a.len() {
            assert(s[i] == a[i]);
        } else {
            assert(s[i] == b[i - a.len()]);
        }
    }
}

/// One more XID_Continue character keeps an identifier valid.
pub proof fn law_ident_push(a: Seq<char>, c: char)
    requires
        valid_ident(a),
        xid_continue(c),
    ensures
        valid_ident(a.push(c)),
{
    assert(a.push(c) =~= a + seq![c]);
    law_ident_extends(a, seq![c]);
}

/// One item never unsets what a field's attributes have set: a set flag
/// stays set and a given `each` name stays as it is.
proof fn lemma_step_accumulates(st: FieldAttrState, item: NestedMetaItem)
    ensures
        st.skip ==> meta_step(st, item).0.skip,
        st.skip_set ==> meta_step(st, item).0.skip_set,
        st.skip_get ==> meta_step(st, item).0.skip_get,
        st.each is Some ==> meta_step(st, item).0.each == st.each,
{
}

/// Within one attribute, settings only accumulate.
proof fn lemma_replay_accumulates(st: FieldAttrState, items: Seq<NestedMetaItem>)
    ensures
        st.skip ==> replay_items(st, items).0.skip,
        st.skip_set ==> replay_items(st, items).0.skip_set,
        st.skip_get ==> replay_items(st, items).0.skip_get,
        st.each is Some ==> replay_items(st, items).0.each == st.each,
    decreases items.len(),
{
    if items.len() > 0 {
        lemma_replay_accumulates(st, items.drop_last());
        lemma_step_accumulates(replay_items(st, items.drop_last()).0, items.last());
    }
}

/// A field's settings accumulate over its attributes: what earlier
/// attributes set (a flag, or the `each` name) stays set, unchanged,
/// whatever attributes follow.
pub proof fn law_field_settings_accumulate(field: usize, attrs: Seq<FieldAttrRecord>, more: Seq<FieldAttrRecord>)
    ensures
        field_attrs_spec(field, attrs).0.skip ==> field_attrs_spec(field, attrs + more).0.skip,
        field_attrs_spec(field, attrs).0.skip_set ==> field_attrs_spec(field, attrs + more).0.skip_set,
        field_attrs_spec(field, attrs).0.skip_get ==> field_attrs_spec(field, attrs + more).0.skip_get,
        field_attrs_spec(field, attrs).0.each is Some ==> field_attrs_spec(field, attrs + more).0.each
            == field_attrs_spec(field, attrs).0.each,
    decreases more.len(),
{
    if more.len() == 0 {
        assert(attrs + more =~= attrs);
    } else {
        law_field_settings_accumulate(field, attrs, more.drop_last());
        assert((attrs + more).drop_last() =~= attrs + more.drop_last());
        assert((attrs + more).last() == more.last());
        let st = field_attrs_spec(field, attrs + more.drop_last()).0;
        lemma_replay_accumulates(st, more.last().items@);
    }
}

/// Items that do not name `each` leave the `each` name as it was.
proof fn lemma_replay_keeps_each(st: FieldAttrState, items: Seq<NestedMetaItem>)
    requires
        forall|i: int| 0 <= i < items.len() ==> !((#[trigger] items[i]).path matches Some(p) && p@ == "each"@),
    ensures
        replay_items(st, items).0.each == st.each,
    decreases items.len(),
{
    if items.len() > 0 {
        assert forall|i: int| 0 <= i < items.drop_last().len() implies !((#[trigger] items.drop_last()[i]).path matches Some(
            p,
        ) && p@ == "each"@) by {
            assert(items.drop_last()[i] == items[i]);
        }
        lemma_replay_keeps_each(st, items.drop_last());
        assert(!(items[items.len() - 1].path matches Some(p) && p@ == "each"@));
    }
}

/// An attribute that does not name `each` leaves a field's `each` name as
/// the earlier attributes set it.
pub proof fn law_attribute_without_each_keeps_each(field: usize, attrs: Seq<FieldAttrRecord>, a: FieldAttrRecord)
    requires
        forall|i: int| 0 <= i < a.items@.len() ==> !((#[trigger] a.items@[i]).path matches Some(p) && p@ == "each"@),
    ensures
        field_attrs_spec(field, attrs.push(a)).0.each == field_attrs_spec(field, attrs).0.each,
{
    assert(attrs.push(a).drop_last() =~= attrs);
    lemma_replay_keeps_each(field_attrs_spec(field, attrs).0, a.items@);
}

/// A setter is named after its field (and its parameter too), except where
/// a `Vec` field has an `each` name: then the setter has that name and adds
/// one item.
pub proof fn law_setter_name(f: StructFieldParsed, vis: Visibility, p: SetterPlan)
    requires
        f.setter_ok(vis, p),
    ensures
        f.ty matches StructFieldTypeParsed::Vec { each: Some(e), .. } ==> p.fn_name@ == e@ && p.param_name@ == e@
            && p.body == SetterBody::ExtendOne,
        !(f.ty matches StructFieldTypeParsed::Vec { each: Some(e), .. }) ==> (f.name matches Some(n) ==> p.fn_name@
            == n@ && p.param_name@ == n@),
        p.member == f.name_or_index,
{
}

/// The getters of a field named `n` are `get_n` and `get_mut_n`, on the
/// field's place in the builder.
pub proof fn law_getter_name(f: StructFieldParsed, vis: Visibility, is_mut: bool, g: GetterPlan)
    requires
        f.getter_ok(vis, is_mut, g),
    ensures
        f.name matches Some(n) ==> g.fn_name@ == (if is_mut { "get_mut_"@ } else { "get_"@ }) + n@,
        g.member == f.name_or_index,
{
}

/// Each known item of a field attribute sets what it names, unless it is
/// already set: `skip`, `skip_set` and `skip_get` their flag, and
/// `each = "name"` the `each` name; nothing else changes.
pub proof fn law_known_items_set_their_setting(st: FieldAttrState, item: NestedMetaItem)
    requires
        item.path matches Some(p) && (p@ == "skip"@ || p@ == "skip_set"@ || p@ == "skip_get"@ || p@ == "each"@),
    ensures
        item.path->0@ == "skip"@ && !st.skip ==> meta_step(st, item).0 == (FieldAttrState { skip: true, ..st })
            && meta_step(st, item).1 is Ok,
        item.path->0@ == "skip_set"@ && !st.skip_set ==> meta_step(st, item).0 == (FieldAttrState {
            skip_set: true,
            ..st
        }) && meta_step(st, item).1 is Ok,
        item.path->0@ == "skip_get"@ && !st.skip_get ==> meta_step(st, item).0 == (FieldAttrState {
            skip_get: true,
            ..st
        }) && meta_step(st, item).1 is Ok,
        (item.path->0@ == "each"@ && st.each is None && item.value is Some && item.value->0 is Ok) ==> meta_step(
            st,
            item,
        ).0 == (FieldAttrState { each: Some(item.value->0->Ok_0), ..st }) && meta_step(st, item).1 is Ok,
{
    reveal_strlit("skip");
    reveal_strlit("skip_set");
    reveal_strlit("skip_get");
    reveal_strlit("each");
    assert("skip"@.len() == 4 && "skip_set"@.len() == 8 && "skip_get"@.len() == 8 && "each"@.len() == 4);
    assert("skip_set"@[5] == 's' && "skip_get"@[5] == 'g');
    assert("skip"@[0] == 's' && "each"@[0] == 'e');
    assert("skip"@ != "skip_set"@ && "skip"@ != "skip_get"@ && "skip_set"@ != "skip_get"@);
    assert("each"@ != "skip"@ && "each"@ != "skip_set"@ && "each"@ != "skip_get"@);
}

} // verus!
