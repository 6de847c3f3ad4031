use vstd::prelude::*;

verus! {

/// The decimal digit for `d < 10`.
pub open spec fn digit_char(d: nat) -> char {
    if d == 0 { '0' } else if d == 1 { '1' } else if d == 2 { '2' } else if d == 3 { '3' }
    else if d == 4 { '4' } else if d == 5 { '5' } else if d == 6 { '6' } else if d == 7 { '7' }
    else if d == 8 { '8' } else { '9' }
}

/// The decimal notation of `n`, without leading zeros.
pub open spec fn decimal(n: nat) -> Seq<char>
    decreases n,
{
    if n < 10 {
        seq![digit_char(n)]
    } else {
        decimal(n / 10).push(digit_char(n % 10))
    }
}


/// The decimal digit `d` as a string.
fn digit_text(d: usize) -> (r: &'static str)
    requires
        d < 10,
    ensures
        r@ == seq![digit_char(d as nat)],
{
    if d == 0 {
        proof { reveal_strlit("0"); }
        "0"
    } else if d == 1 {
        proof { reveal_strlit("1"); }
        "1"
    } else if d == 2 {
        proof { reveal_strlit("2"); }
        "2"
    } else if d == 3 {
        proof { reveal_strlit("3"); }
        "3"
    } else if d == 4 {
        proof { reveal_strlit("4"); }
        "4"
    } else if d == 5 {
        proof { reveal_strlit("5"); }
        "5"
    } else if d == 6 {
        proof { reveal_strlit("6"); }
        "6"
    } else if d == 7 {
        proof { reveal_strlit("7"); }
        "7"
    } else if d == 8 {
        proof { reveal_strlit("8"); }
        "8"
    } else {
        proof { reveal_strlit("9"); }
        "9"
    }
}

/// Appends the decimal notation of `n` to `out`.
pub fn push_decimal(out: &mut String, n: usize)
    ensures
        final(out)@ == old(out)@ + decimal(n as nat),
    decreases n,
{
    if n >= 10 {
        push_decimal(out, n / 10);
    }
    out.append(digit_text(n % 10));
    proof {
        if n >= 10 {
            assert(decimal(n as nat) == decimal((n / 10) as nat).push(digit_char((n % 10) as nat)));
        }
    }
}


/// Whether `a` and `b` hold the same characters.
pub fn text_equals(a: &String, b: &str) -> (r: bool)
    ensures
        r == (a@ == b@),
{
    let owned = String::from_str(b);
    a.eq(&owned)
}

/// A copy of `s`.
pub fn copy_text(s: &String) -> (r: String)
    ensures
        r == *s,
        r@ == s@,
{
    s.clone()
}

/// A copy of an optional string.
pub fn copy_opt_text(s: &Option<String>) -> (r: Option<String>)
    ensures
        r == *s,
{
    match s {
        Some(t) => Some(t.clone()),
        None => None,
    }
}

/// Whether `c` has the Unicode property XID_Start, as
/// `unicode_ident::is_xid_start` reports it.
pub uninterp spec fn xid_start(c: char) -> bool;

/// Whether `c` has the Unicode property XID_Continue, as
/// `unicode_ident::is_xid_continue` reports it.
pub uninterp spec fn xid_continue(c: char) -> bool;

/// Calls `unicode_ident::is_xid_start`, which looks `c` up in the Unicode
/// XID_Start table; its result is named `xid_start`.
#[verifier::external_body]
fn char_is_xid_start(c: char) -> (r: bool)
    ensures
        r == xid_start(c),
{
    unicode_ident::is_xid_start(c)
}

/// Calls `unicode_ident::is_xid_continue`, which looks `c` up in the Unicode
/// XID_Continue table; its result is named `xid_continue`.
#[verifier::external_body]
fn char_is_xid_continue(c: char) -> (r: bool)
    ensures
        r == xid_continue(c),
{
    unicode_ident::is_xid_continue(c)
}

/// Whether `s` is accepted as an identifier by `proc_macro2::Ident::new`
/// outside a macro run (which panics on any other string): not empty, not
/// made of ASCII digits only, starting with `_` or an XID_Start character and
/// going on with XID_Continue characters. A raw identifier (`r#..`) is not
/// one. Inside a macro run, `proc_macro2` hands the string to the compiler's
/// `proc_macro::Ident::new`, which applies the compiler's own check instead.
pub open spec fn valid_ident(s: Seq<char>) -> bool {
    &&& s.len() > 0
    &&& !(forall|i: int| 0 <= i < s.len() ==> '0' <= #[trigger] s[i] <= '9')
    &&& (s[0] == '_' || xid_start(s[0]))
    &&& forall|i: int| 1 <= i < s.len() ==> xid_continue(#[trigger] s[i])
}

/// See `valid_ident`.
pub fn is_valid_ident(s: &str) -> (r: bool)
    ensures
        r == valid_ident(s@),
{
    let n = s.unicode_len();
    if n == 0 {
        return false;
    }
    let mut all_digits = true;
    let mut i: usize = 0;
    while i < n
        invariant
            n == s@.len(),
            i <= n,
            all_digits == (forall|j: int| 0 <= j < i ==> '0' <= #[trigger] s@[j] <= '9'),
        decreases n - i,
    {
        let c = s.get_char(i);
        if !('0' <= c && c <= '9') {
            all_digits = false;
        }
        i = i + 1;
    }
    if all_digits {
        return false;
    }
    let first = s.get_char(0);
    if !(first == '_' || char_is_xid_start(first)) {
        return false;
    }
    let mut k: usize = 1;
    while k < n
        invariant
            n == s@.len(),
            1 <= k <= n,
            forall|j: int| 1 <= j < k ==> xid_continue(#[trigger] s@[j]),
        decreases n - k,
    {
        if !char_is_xid_continue(s.get_char(k)) {
            return false;
        }
        k = k + 1;
    }
    true
}

/// How a field of the deriving struct is addressed: by its identifier, or by
/// its position in a tuple struct.
#[derive(Debug, PartialEq, Eq)]
pub enum StructFieldNameParsed {
    Named(String),
    Unnamed(usize),
}

impl StructFieldNameParsed {
    /// The identifier that stands for this field: the field's own identifier,
    /// or `unnamed_prefix` followed by the decimal position of a tuple field.
    pub open spec fn ident_spec(&self, unnamed_prefix: Seq<char>) -> Seq<char> {
        match self {
            StructFieldNameParsed::Named(ident) => ident@,
            StructFieldNameParsed::Unnamed(index) => unnamed_prefix + decimal(*index as nat),
        }
    }

    /// A copy of this name.
    pub fn duplicate(&self) -> (r: Self)
        ensures
            r == *self,
    {
        match self {
            StructFieldNameParsed::Named(ident) => StructFieldNameParsed::Named(ident.clone()),
            StructFieldNameParsed::Unnamed(index) => StructFieldNameParsed::Unnamed(*index),
        }
    }

    /// The identifier that stands for this field (see `ident_spec`).
    pub fn to_ident(&self, unnamed_prefix: &str) -> (r: String)
        ensures
            r@ == self.ident_spec(unnamed_prefix@),
    {
        match self {
            StructFieldNameParsed::Named(ident) => ident.clone(),
            StructFieldNameParsed::Unnamed(index) => {
                let mut out = String::from_str(unnamed_prefix);
                push_decimal(&mut out, *index);
                out
            },
        }
    }

    /// Like `to_ident`, consuming the name.
    pub fn into_ident(self, unnamed_prefix: &str) -> (r: String)
        ensures
            r@ == self.ident_spec(unnamed_prefix@),
    {
        match self {
            StructFieldNameParsed::Named(ident) => ident,
            StructFieldNameParsed::Unnamed(index) => {
                let mut out = String::from_str(unnamed_prefix);
                push_decimal(&mut out, index);
                out
            },
        }
    }
}

} // verus!
