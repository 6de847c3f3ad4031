use vstd::prelude::*;

use crate::expand::{GetterPlan, SetterPlan};
use crate::parse::ErrorPlan;
use crate::types::{TakeExpr, TypeExpr};

verus! {

/// A field of the builder struct: `name: ty,`.
#[derive(Debug, PartialEq, Eq)]
pub struct FieldDecl {
    pub span: usize,
    pub name: String,
    pub ty: TypeExpr,
}

/// A field of the builder's struct literal, initialised empty: `name:
/// ::core::option::None,`.
#[derive(Debug, PartialEq, Eq)]
pub struct FieldInit {
    pub span: usize,
    pub name: String,
}

/// A field of the struct literal that `build` returns: `name: take,`.
#[derive(Debug, PartialEq, Eq)]
pub struct FieldBuild {
    pub span: usize,
    pub name: String,
    pub take: TakeExpr,
}

/// The pieces of the generated code that come from the struct's fields, in
/// field order. A setter or getter list that no field contributed to is
/// `None`.
#[derive(Debug, PartialEq, Eq)]
pub struct StructFieldTokens {
    pub errors: Vec<ErrorPlan>,
    pub new: Vec<FieldDecl>,
    pub init: Vec<FieldInit>,
    pub setter: Option<Vec<SetterPlan>>,
    pub getter: Option<Vec<GetterPlan>>,
    pub build: Vec<FieldBuild>,
}

/// The contents of a `StructFieldTokens`.
pub struct StructFieldTokensView {
    pub errors: Seq<ErrorPlan>,
    pub new: Seq<FieldDecl>,
    pub init: Seq<FieldInit>,
    pub setter: Option<Seq<SetterPlan>>,
    pub getter: Option<Seq<GetterPlan>>,
    pub build: Seq<FieldBuild>,
}

pub open spec fn opt_view<T>(v: Option<Vec<T>>) -> Option<Seq<T>> {
    match v {
        Some(v) => Some(v@),
        None => None,
    }
}

impl View for StructFieldTokens {
    type V = StructFieldTokensView;

    open spec fn view(&self) -> StructFieldTokensView {
        StructFieldTokensView {
            errors: self.errors@,
            new: self.new@,
            init: self.init@,
            setter: opt_view(self.setter),
            getter: opt_view(self.getter),
            build: self.build@,
        }
    }
}

/// Nothing from any field.
pub open spec fn empty_tokens() -> StructFieldTokensView {
    StructFieldTokensView {
        errors: seq![],
        new: seq![],
        init: seq![],
        setter: None,
        getter: None,
        build: seq![],
    }
}

/// Joins two optional lists: `None` only when both are.
pub open spec fn merge_opt<T>(a: Option<Seq<T>>, b: Option<Seq<T>>) -> Option<Seq<T>> {
    match (a, b) {
        (Some(x), Some(y)) => Some(x + y),
        (None, Some(y)) => Some(y),
        (x, None) => x,
    }
}

/// The pieces of `acc` followed by those of `item`.
pub open spec fn merge_spec(acc: StructFieldTokensView, item: StructFieldTokensView) -> StructFieldTokensView {
    StructFieldTokensView {
        errors: acc.errors + item.errors,
        new: acc.new + item.new,
        init: acc.init + item.init,
        setter: merge_opt(acc.setter, item.setter),
        getter: merge_opt(acc.getter, item.getter),
        build: acc.build + item.build,
    }
}

/// The pieces of all `items`, in order.
pub open spec fn from_iter_spec(items: Seq<StructFieldTokensView>) -> StructFieldTokensView
    decreases items.len(),
{
    if items.len() == 0 {
        empty_tokens()
    } else {
        merge_spec(from_iter_spec(items.drop_last()), items.last())
    }
}

/// The views of a list of tokens.
pub open spec fn views(items: Seq<StructFieldTokens>) -> Seq<StructFieldTokensView> {
    items.map_values(|t: StructFieldTokens| t@)
}

fn merge_opt_vec<T>(a: Option<Vec<T>>, b: Option<Vec<T>>) -> (r: Option<Vec<T>>)
    ensures
        opt_view(r) == merge_opt(opt_view(a), opt_view(b)),
{
    match (a, b) {
        (Some(mut x), Some(mut y)) => {
            x.append(&mut y);
            Some(x)
        },
        (None, Some(y)) => Some(y),
        (x, None) => x,
    }
}

impl Default for StructFieldTokens {
    fn default() -> (r: Self)
        ensures
            r@ == empty_tokens(),
    {
        StructFieldTokens {
            errors: Vec::new(),
            new: Vec::new(),
            init: Vec::new(),
            setter: None,
            getter: None,
            build: Vec::new(),
        }
    }
}

impl StructFieldTokens {
    /// These pieces followed by those of `item`.
    pub fn merge(self, item: Self) -> (r: Self)
        ensures
            r@ == merge_spec(self@, item@),
    {
        let StructFieldTokens { mut errors, mut new, mut init, setter, getter, mut build } = self;
        let StructFieldTokens {
            errors: mut item_errors,
            new: mut item_new,
            init: mut item_init,
            setter: item_setter,
            getter: item_getter,
            build: mut item_build,
        } = item;
        errors.append(&mut item_errors);
        new.append(&mut item_new);
        init.append(&mut item_init);
        build.append(&mut item_build);
        let setter = merge_opt_vec(setter, item_setter);
        let getter = merge_opt_vec(getter, item_getter);
        StructFieldTokens { errors, new, init, setter, getter, build }
    }

    /// Collects the pieces of all `items`, in order.
    pub fn from_iter(items: Vec<Self>) -> (r: Self)
        ensures
            r@ == from_iter_spec(views(items@)),
    {
        let ghost all = items@;
        let n = items.len();
        let mut rest = items;
        let mut acc = StructFieldTokens::default();
        let mut k: usize = 0;
        while rest.len() > 0
            invariant
                k + rest@.len() == all.len(),
                all.len() == n,
                rest@ == all.skip(k as int),
                acc@ == from_iter_spec(views(all.take(k as int))),
            decreases rest@.len(),
        {
            let item = rest.remove(0);
            proof {
                assert(views(all.take(k as int + 1)).drop_last() =~= views(all.take(k as int)));
                assert(item == all[k as int]);
            }
            acc = acc.merge(item);
            k = k + 1;
            assert(rest@ =~= all.skip(k as int));
        }
        assert(all.take(k as int) =~= all);
        acc
    }
}

} // verus!
