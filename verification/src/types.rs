use vstd::prelude::*;

use crate::names::{copy_opt_text, text_equals};

verus! {

/// Refers to one type of the deriving struct's source (a field's type, or a
/// type argument inside it). Whoever builds the input keeps the types behind
/// these numbers; the plan only says which type goes where.
pub type TypeHandle = usize;

/// One generic argument of a path segment, as far as it matters here.
#[derive(PartialEq, Eq, Structural, Clone, Copy, Debug)]
pub enum GenericArgShape {
    Type(TypeHandle),
    Other,
}

/// The arguments of a path segment.
#[derive(Debug, PartialEq, Eq)]
pub enum PathArgsShape {
    Empty,
    AngleBracketed(Vec<GenericArgShape>),
    Parenthesized,
}

/// A segment of a type path: its identifier and its arguments.
#[derive(Debug, PartialEq, Eq)]
pub struct PathSegmentShape {
    pub ident: String,
    pub arguments: PathArgsShape,
}

/// The shape of a field's type: a path (such as `Vec<u8>`) or anything else.
#[derive(Debug, PartialEq, Eq)]
pub enum TypeShape {
    Path(Vec<PathSegmentShape>),
    Other,
}

/// The identifier of the last path segment and its first argument, when the
/// type is a path whose last segment has angle-bracketed arguments of which
/// the first is a type.
pub open spec fn split_type_spec(ty: TypeShape) -> Option<(Seq<char>, TypeHandle)> {
    match ty {
        TypeShape::Path(segments) => {
            if segments@.len() > 0 {
                let last = segments@.last();
                match last.arguments {
                    PathArgsShape::AngleBracketed(args) => {
                        if args@.len() > 0 {
                            match args@[0] {
                                GenericArgShape::Type(inner) => Some((last.ident@, inner)),
                                GenericArgShape::Other => None,
                            }
                        } else {
                            None
                        }
                    },
                    _ => None,
                }
            } else {
                None
            }
        },
        TypeShape::Other => None,
    }
}

/// Splits a type such as `Outer<Inner, ..>` into the outer identifier and the
/// inner type (see `split_type_spec`).
pub fn split_type_to_outer_inner(ty: &TypeShape) -> (r: Option<(String, TypeHandle)>)
    ensures
        match r {
            Some((outer, inner)) => split_type_spec(*ty) == Some((outer@, inner)),
            None => split_type_spec(*ty) is None,
        },
{
    match ty {
        TypeShape::Path(segments) => {
            let n = segments.len();
            if n == 0 {
                return None;
            }
            let last = &segments[n - 1];
            match &last.arguments {
                PathArgsShape::AngleBracketed(args) => {
                    if args.len() == 0 {
                        return None;
                    }
                    match args[0] {
                        GenericArgShape::Type(inner) => Some((last.ident.clone(), inner)),
                        GenericArgShape::Other => None,
                    }
                },
                _ => None,
            }
        },
        TypeShape::Other => None,
    }
}

/// `Option`
pub open spec fn option_ident() -> Seq<char> {
    seq!['O', 'p', 't', 'i', 'o', 'n']
}

/// `Vec`
pub open spec fn vec_ident() -> Seq<char> {
    seq!['V', 'e', 'c']
}

/// How the builder treats a field, by the field's type: an ordinary value
/// (`ty`), an `Option<inner_ty>`, or a `Vec<inner_ty>` (optionally with a
/// setter named `each` that adds one item).
#[derive(Debug, PartialEq, Eq)]
pub enum StructFieldTypeParsed {
    Normal { ty: TypeHandle },
    Option { inner_ty: TypeHandle },
    Vec { inner_ty: TypeHandle, each: Option<String> },
}

/// A type that the generated code writes, built around one of the struct's
/// types `T`.
#[derive(PartialEq, Eq, Structural, Clone, Copy, Debug)]
pub enum TypeExpr {
    /// `T`
    Plain(TypeHandle),
    /// `::core::option::Option<T>`
    OptionOf(TypeHandle),
    /// `::std::vec::Vec<T>`
    VecOf(TypeHandle),
    /// `::core::option::Option<&T>`
    OptionRef(TypeHandle),
    /// `::core::option::Option<&mut T>`
    OptionRefMut(TypeHandle),
    /// `&[T]`
    SliceRef(TypeHandle),
}

impl TypeExpr {
    /// The struct's type that this type is built around.
    pub open spec fn spec_handle(self) -> TypeHandle {
        match self {
            TypeExpr::Plain(h) => h,
            TypeExpr::OptionOf(h) => h,
            TypeExpr::VecOf(h) => h,
            TypeExpr::OptionRef(h) => h,
            TypeExpr::OptionRefMut(h) => h,
            TypeExpr::SliceRef(h) => h,
        }
    }
}

/// How `build` moves a field's value out of the builder.
#[derive(PartialEq, Eq, Structural, Clone, Copy, Debug)]
pub enum TakeKind {
    /// `::core::option::Option::<T>::take(&mut place)?`: `build` gives
    /// `None` while the field is unset.
    OptionTakeRequired(TypeHandle),
    /// `::core::option::Option::<T>::take(&mut place)`
    OptionTake(TypeHandle),
    /// `::core::mem::take(&mut place)`; the handle is the item type.
    MemTake(TypeHandle),
}

/// A take expression on the builder field named `place`.
#[derive(Debug, PartialEq, Eq)]
pub struct TakeExpr {
    pub kind: TakeKind,
    pub place: String,
}

/// The field type that the field's kind classifies, for a type shaped `ty`
/// with handle `handle`, and the `each` setter name given in its attributes.
pub open spec fn classify_spec(ty: TypeShape, handle: TypeHandle, each: Option<String>) -> StructFieldTypeParsed {
    match split_type_spec(ty) {
        Some((outer, inner)) => {
            if outer == option_ident() {
                StructFieldTypeParsed::Option { inner_ty: inner }
            } else if outer == vec_ident() {
                StructFieldTypeParsed::Vec { inner_ty: inner, each }
            } else {
                StructFieldTypeParsed::Normal { ty: handle }
            }
        },
        None => StructFieldTypeParsed::Normal { ty: handle },
    }
}

impl StructFieldTypeParsed {
    /// Classifies a field's type (see `classify_spec`).
    pub fn classify(ty: &TypeShape, handle: TypeHandle, each: Option<String>) -> (r: Self)
        ensures
            r == classify_spec(*ty, handle, each),
    {
        match split_type_to_outer_inner(ty) {
            Some((outer, inner)) => {
                proof {
                    reveal_strlit("Option");
                    reveal_strlit("Vec");
                    assert("Option"@ =~= option_ident());
                    assert("Vec"@ =~= vec_ident());
                }
                if text_equals(&outer, "Option") {
                    StructFieldTypeParsed::Option { inner_ty: inner }
                } else if text_equals(&outer, "Vec") {
                    StructFieldTypeParsed::Vec { inner_ty: inner, each }
                } else {
                    StructFieldTypeParsed::Normal { ty: handle }
                }
            },
            None => StructFieldTypeParsed::Normal { ty: handle },
        }
    }

    /// A copy of this classification.
    pub fn duplicate(&self) -> (r: Self)
        ensures
            r == *self,
    {
        match self {
            StructFieldTypeParsed::Normal { ty } => StructFieldTypeParsed::Normal { ty: *ty },
            StructFieldTypeParsed::Option { inner_ty } => StructFieldTypeParsed::Option { inner_ty: *inner_ty },
            StructFieldTypeParsed::Vec { inner_ty, each } => StructFieldTypeParsed::Vec {
                inner_ty: *inner_ty,
                each: copy_opt_text(each),
            },
        }
    }

    /// The return type of a getter (`is_mut` for the one that lends the value
    /// mutably).
    pub open spec fn spec_ty_get(&self, is_mut: bool) -> TypeExpr {
        match self {
            StructFieldTypeParsed::Normal { ty } => if is_mut { TypeExpr::OptionRefMut(*ty) } else { TypeExpr::OptionRef(*ty) },
            StructFieldTypeParsed::Option { inner_ty } => if is_mut { TypeExpr::OptionRefMut(*inner_ty) } else { TypeExpr::OptionRef(*inner_ty) },
            StructFieldTypeParsed::Vec { inner_ty, .. } => TypeExpr::SliceRef(*inner_ty),
        }
    }

    /// The type of the field in the builder struct.
    pub open spec fn spec_ty_to_builder(&self) -> TypeExpr {
        match self {
            StructFieldTypeParsed::Normal { ty } => TypeExpr::OptionOf(*ty),
            StructFieldTypeParsed::Option { inner_ty } => TypeExpr::OptionOf(*inner_ty),
            StructFieldTypeParsed::Vec { inner_ty, .. } => TypeExpr::VecOf(*inner_ty),
        }
    }

    /// The type of the setter's parameter.
    pub open spec fn spec_ty_fn_set(&self) -> TypeExpr {
        match self {
            StructFieldTypeParsed::Normal { ty } => TypeExpr::Plain(*ty),
            StructFieldTypeParsed::Option { inner_ty } => TypeExpr::Plain(*inner_ty),
            StructFieldTypeParsed::Vec { inner_ty, each } => match each {
                Some(_) => TypeExpr::Plain(*inner_ty),
                None => TypeExpr::VecOf(*inner_ty),
            },
        }
    }

    /// How `build` takes the field out of the builder.
    pub open spec fn spec_take_kind(&self) -> TakeKind {
        match self {
            StructFieldTypeParsed::Normal { ty } => TakeKind::OptionTakeRequired(*ty),
            StructFieldTypeParsed::Option { inner_ty } => TakeKind::OptionTake(*inner_ty),
            StructFieldTypeParsed::Vec { inner_ty, .. } => TakeKind::MemTake(*inner_ty),
        }
    }

    /// The return type of a getter: `Option<&T>` (or `Option<&mut T>` when
    /// `is_mut`) for a value field, and `&[T]` for a `Vec<T>` field either
    /// way.
    pub fn ty_get(&self, is_mut: bool) -> (r: TypeExpr)
        ensures
            r == self.spec_ty_get(is_mut),
    {
        match self {
            StructFieldTypeParsed::Normal { ty } => if is_mut { TypeExpr::OptionRefMut(*ty) } else { TypeExpr::OptionRef(*ty) },
            StructFieldTypeParsed::Option { inner_ty } => if is_mut { TypeExpr::OptionRefMut(*inner_ty) } else { TypeExpr::OptionRef(*inner_ty) },
            StructFieldTypeParsed::Vec { inner_ty, .. } => TypeExpr::SliceRef(*inner_ty),
        }
    }

    /// The type of the field in the builder: `Option<T>` for a `T` or an
    /// `Option<T>` field, `Vec<T>` for a `Vec<T>` field.
    pub fn ty_to_builder(&self) -> (r: TypeExpr)
        ensures
            r == self.spec_ty_to_builder(),
    {
        match self {
            StructFieldTypeParsed::Normal { ty } => TypeExpr::OptionOf(*ty),
            StructFieldTypeParsed::Option { inner_ty } => TypeExpr::OptionOf(*inner_ty),
            StructFieldTypeParsed::Vec { inner_ty, .. } => TypeExpr::VecOf(*inner_ty),
        }
    }

    /// The setter's parameter type: `T` for a `T` or an `Option<T>` field,
    /// the item type `T` of a `Vec<T>` field with an `each` setter, and
    /// `Vec<T>` for one without.
    pub fn ty_fn_set(&self) -> (r: TypeExpr)
        ensures
            r == self.spec_ty_fn_set(),
    {
        match self {
            StructFieldTypeParsed::Normal { ty } => TypeExpr::Plain(*ty),
            StructFieldTypeParsed::Option { inner_ty } => TypeExpr::Plain(*inner_ty),
            StructFieldTypeParsed::Vec { inner_ty, each } => match each {
                Some(_) => TypeExpr::Plain(*inner_ty),
                None => TypeExpr::VecOf(*inner_ty),
            },
        }
    }

    /// The expression that moves the builder field named `place` out in
    /// `build`.
    pub fn tokens_take(&self, place: &String) -> (r: TakeExpr)
        ensures
            r.kind == self.spec_take_kind(),
            r.place == *place,
    {
        let kind = match self {
            StructFieldTypeParsed::Normal { ty } => TakeKind::OptionTakeRequired(*ty),
            StructFieldTypeParsed::Option { inner_ty } => TakeKind::OptionTake(*inner_ty),
            StructFieldTypeParsed::Vec { inner_ty, .. } => TakeKind::MemTake(*inner_ty),
        };
        TakeExpr { kind, place: place.clone() }
    }
}

} // verus!
