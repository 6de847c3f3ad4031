use vstd::prelude::*;

use crate::names::{copy_opt_text, copy_text, text_equals};

verus! {

/// Whether an attribute's path (its single identifier, if it is one) names
/// this derive's helper attribute, `builder`.
pub open spec fn is_builder_spec(path: Option<String>) -> bool {
    path matches Some(p) && p@ == "builder"@
}

/// Whether an attribute with this path is a `#[builder(..)]` attribute.
pub fn is_builder_attr(path: &Option<String>) -> (r: bool)
    ensures
        r == is_builder_spec(*path),
{
    match path {
        Some(p) => text_equals(p, "builder"),
        None => false,
    }
}

/// A flag that a field attribute can set once.
#[derive(PartialEq, Eq, Structural, Clone, Copy, Debug)]
pub enum Flag {
    /// `skip`: the field is left out of the builder.
    Skip,
    /// `skip_set`: the builder has no setter for the field.
    SkipSet,
    /// `skip_get`: the builder has no getters for the field.
    SkipGet,
}

impl Flag {
    /// The flag as written in the attribute.
    pub open spec fn spec_name(self) -> Seq<char> {
        match self {
            Flag::Skip => "skip"@,
            Flag::SkipSet => "skip_set"@,
            Flag::SkipGet => "skip_get"@,
        }
    }

    /// The flag as written in the attribute.
    pub fn name(self) -> (r: &'static str)
        ensures
            r@ == self.spec_name(),
    {
        match self {
            Flag::Skip => "skip",
            Flag::SkipSet => "skip_set",
            Flag::SkipGet => "skip_get",
        }
    }
}

/// What the `#[builder(..)]` attributes of one field have set so far.
#[derive(Debug, PartialEq, Eq)]
pub struct FieldAttrState {
    pub skip: bool,
    pub skip_set: bool,
    pub skip_get: bool,
    /// The name of the setter that adds one item to a `Vec` field.
    pub each: Option<String>,
}

/// One nested item of a `#[builder(..)]` field attribute, as the attribute
/// parser met it: its path when that is a single identifier, and, for
/// `each = "name"`, the outcome of reading the string literal after `=`
/// (`Err` when no string literal could be read there).
#[derive(Debug, PartialEq, Eq)]
pub struct NestedMetaItem {
    pub path: Option<String>,
    pub value: Option<Result<String, ()>>,
}

/// Why a nested item of a field attribute was refused.
#[derive(Debug, PartialEq, Eq)]
pub enum FieldAttrError {
    /// The flag was already set for this field.
    AlreadySet(Flag),
    /// `each` was already set for this field, to the given name.
    AlreadySetEach(String),
    /// The identifier is none of the known items.
    Unknown(String),
    /// The item's path is not a single identifier.
    ExpectIdentifier,
    /// `each` is not followed by `= "string literal"`; the parser's own error
    /// describes it.
    ValueRejected,
}

impl FieldAttrError {
    /// The message reported for this error, `attr_text` being the attribute
    /// as written; `None` where the attribute parser's own error is reported.
    pub open spec fn spec_message(&self, attr_text: Seq<char>) -> Option<Seq<char>> {
        match self {
            FieldAttrError::AlreadySet(flag) => Some("already set '"@ + flag.spec_name() + "'"@),
            FieldAttrError::AlreadySetEach(prev) => Some("already set 'each = "@ + prev@ + "'"@),
            FieldAttrError::Unknown(other) => Some("unknown attribute `"@ + other@ + "`"@),
            FieldAttrError::ExpectIdentifier => Some("except identifier, but `"@ + attr_text + "`"@),
            FieldAttrError::ValueRejected => None,
        }
    }

    /// Whether the error is reported at the whole attribute (rather than at
    /// the item's path).
    pub open spec fn spec_spans_attribute(&self) -> bool {
        self is ExpectIdentifier
    }

    /// See `spec_spans_attribute`.
    pub fn spans_attribute(&self) -> (r: bool)
        ensures
            r == self.spec_spans_attribute(),
    {
        match self {
            FieldAttrError::ExpectIdentifier => true,
            _ => false,
        }
    }

    /// The message reported for this error (see `spec_message`).
    pub fn message(&self, attr_text: &str) -> (r: Option<String>)
        ensures
            match r {
                Some(m) => self.spec_message(attr_text@) == Some(m@),
                None => self.spec_message(attr_text@) is None,
            },
    {
        match self {
            FieldAttrError::AlreadySet(flag) => {
                let mut m = String::from_str("already set '");
                m.append(flag.name());
                m.append("'");
                Some(m)
            },
            FieldAttrError::AlreadySetEach(prev) => {
                let mut m = String::from_str("already set 'each = ");
                m.append(prev.as_str());
                m.append("'");
                Some(m)
            },
            FieldAttrError::Unknown(other) => {
                let mut m = String::from_str("unknown attribute `");
                m.append(other.as_str());
                m.append("`");
                Some(m)
            },
            FieldAttrError::ExpectIdentifier => {
                let mut m = String::from_str("except identifier, but `");
                m.append(attr_text);
                m.append("`");
                Some(m)
            },
            FieldAttrError::ValueRejected => None,
        }
    }
}

/// Whether the attribute parser must read `= "name"` after an item with this
/// path: only after `each`.
pub open spec fn needs_value_spec(path: Option<String>) -> bool {
    path matches Some(p) && p@ == "each"@
}

/// See `needs_value_spec`.
pub fn needs_value(path: &Option<String>) -> (r: bool)
    ensures
        r == needs_value_spec(*path),
{
    match path {
        Some(p) => text_equals(p, "each"),
        None => false,
    }
}

/// Sets a flag, or refuses when it is already set.
pub open spec fn set_flag_spec(st: FieldAttrState, flag: Flag) -> (FieldAttrState, Result<(), FieldAttrError>) {
    match flag {
        Flag::Skip => if st.skip {
            (st, Err(FieldAttrError::AlreadySet(flag)))
        } else {
            (FieldAttrState { skip: true, ..st }, Ok(()))
        },
        Flag::SkipSet => if st.skip_set {
            (st, Err(FieldAttrError::AlreadySet(flag)))
        } else {
            (FieldAttrState { skip_set: true, ..st }, Ok(()))
        },
        Flag::SkipGet => if st.skip_get {
            (st, Err(FieldAttrError::AlreadySet(flag)))
        } else {
            (FieldAttrState { skip_get: true, ..st }, Ok(()))
        },
    }
}

/// The effect of one nested item on a field's state: the new state and
/// whether the item was accepted. A refused item leaves the state as it was.
pub open spec fn meta_step(st: FieldAttrState, item: NestedMetaItem) -> (FieldAttrState, Result<(), FieldAttrError>) {
    match item.path {
        None => (st, Err(FieldAttrError::ExpectIdentifier)),
        Some(p) => {
            if p@ == "skip"@ {
                set_flag_spec(st, Flag::Skip)
            } else if p@ == "skip_set"@ {
                set_flag_spec(st, Flag::SkipSet)
            } else if p@ == "skip_get"@ {
                set_flag_spec(st, Flag::SkipGet)
            } else if p@ == "each"@ {
                match item.value {
                    Some(Ok(name)) => match st.each {
                        Some(prev) => (st, Err(FieldAttrError::AlreadySetEach(prev))),
                        None => (FieldAttrState { each: Some(name), ..st }, Ok(())),
                    },
                    _ => (st, Err(FieldAttrError::ValueRejected)),
                }
            } else {
                (st, Err(FieldAttrError::Unknown(p)))
            }
        },
    }
}

/// The effect of the nested items of one attribute, in order: the parser
/// stops at the first refused item, so the items after it have no effect.
pub open spec fn replay_items(st: FieldAttrState, items: Seq<NestedMetaItem>) -> (FieldAttrState, Result<(), FieldAttrError>)
    decreases items.len(),
{
    if items.len() == 0 {
        (st, Ok(()))
    } else {
        let (before, res) = replay_items(st, items.drop_last());
        if res is Err {
            (before, res)
        } else {
            meta_step(before, items.last())
        }
    }
}

impl FieldAttrState {
    /// The state before any attribute.
    pub open spec fn spec_initial() -> Self {
        FieldAttrState { skip: false, skip_set: false, skip_get: false, each: None }
    }

    /// The state before any attribute.
    pub fn initial() -> (r: Self)
        ensures
            r == Self::spec_initial(),
    {
        FieldAttrState { skip: false, skip_set: false, skip_get: false, each: None }
    }

    /// A copy of this state.
    pub fn duplicate(&self) -> (r: Self)
        ensures
            r == *self,
    {
        FieldAttrState {
            skip: self.skip,
            skip_set: self.skip_set,
            skip_get: self.skip_get,
            each: copy_opt_text(&self.each),
        }
    }

    fn set_flag(&mut self, flag: Flag) -> (r: Result<(), FieldAttrError>)
        ensures
            (*final(self), r) == set_flag_spec(*old(self), flag),
    {
        match flag {
            Flag::Skip => if self.skip {
                Err(FieldAttrError::AlreadySet(flag))
            } else {
                self.skip = true;
                Ok(())
            },
            Flag::SkipSet => if self.skip_set {
                Err(FieldAttrError::AlreadySet(flag))
            } else {
                self.skip_set = true;
                Ok(())
            },
            Flag::SkipGet => if self.skip_get {
                Err(FieldAttrError::AlreadySet(flag))
            } else {
                self.skip_get = true;
                Ok(())
            },
        }
    }

    /// Applies one nested item of a `#[builder(..)]` attribute (see
    /// `meta_step`).
    pub fn apply_nested_meta(&mut self, item: &NestedMetaItem) -> (r: Result<(), FieldAttrError>)
        ensures
            (*final(self), r) == meta_step(*old(self), *item),
    {
        match &item.path {
            None => Err(FieldAttrError::ExpectIdentifier),
            Some(p) => {
                if text_equals(p, "skip") {
                    self.set_flag(Flag::Skip)
                } else if text_equals(p, "skip_set") {
                    self.set_flag(Flag::SkipSet)
                } else if text_equals(p, "skip_get") {
                    self.set_flag(Flag::SkipGet)
                } else if text_equals(p, "each") {
                    match &item.value {
                        Some(Ok(name)) => match &self.each {
                            Some(prev) => Err(FieldAttrError::AlreadySetEach(copy_text(prev))),
                            None => {
                                self.each = Some(copy_text(name));
                                Ok(())
                            },
                        },
                        _ => Err(FieldAttrError::ValueRejected),
                    }
                } else {
                    Err(FieldAttrError::Unknown(copy_text(p)))
                }
            },
        }
    }

    /// Applies the nested items of one attribute in order, stopping at the
    /// first refused one (see `replay_items`).
    pub fn apply_nested_metas(&mut self, items: &Vec<NestedMetaItem>) -> (r: Result<(), FieldAttrError>)
        ensures
            (*final(self), r) == replay_items(*old(self), items@),
    {
        let mut res: Result<(), FieldAttrError> = Ok(());
        let mut i: usize = 0;
        while i < items.len()
            invariant
                i <= items@.len(),
                (*self, res) == replay_items(*old(self), items@.take(i as int)),
            decreases items@.len() - i,
        {
            assert(items@.take(i as int + 1).drop_last() =~= items@.take(i as int));
            if res.is_ok() {
                res = self.apply_nested_meta(&items[i]);
            }
            i = i + 1;
        }
        assert(items@.take(items@.len() as int) =~= items@);
        res
    }
}

} // verus!
