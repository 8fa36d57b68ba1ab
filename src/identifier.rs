//! Account addresses and validated Move identifiers.

use vstd::prelude::*;

verus! {

/// The address under which a module is published: sixteen bytes, read as
/// one big-endian number.
#[derive(Clone, Copy, Debug, PartialEq, Eq, Structural, Hash)]
pub struct AccountAddress(pub u128);

impl AccountAddress {
    /// The address with the given numeric value.
    pub fn new(value: u128) -> (r: AccountAddress)
        ensures
            r.0 == value,
    {
        AccountAddress(value)
    }
}

/// A character allowed after the first one of an identifier.
pub open spec fn is_identifier_char(c: char) -> bool {
    ('a' <= c && c <= 'z') || ('A' <= c && c <= 'Z') || ('0' <= c && c <= '9') || c == '_'
}

/// A legal identifier: an ASCII letter, or an underscore followed by at least
/// one more character, and then only ASCII letters, digits and underscores.
pub open spec fn is_valid_identifier(s: Seq<char>) -> bool {
    &&& s.len() > 0
    &&& ('a' <= s[0] && s[0] <= 'z') || ('A' <= s[0] && s[0] <= 'Z') || (s[0] == '_' && s.len()
        > 1)
    &&& forall|i: int| 1 <= i < s.len() ==> is_identifier_char(#[trigger] s[i])
}

fn identifier_char(c: char) -> (r: bool)
    ensures
        r == is_identifier_char(c),
{
    ('a' <= c && c <= 'z') || ('A' <= c && c <= 'Z') || ('0' <= c && c <= '9') || c == '_'
}

/// Whether the text is a legal identifier.
pub fn is_valid(s: &str) -> (r: bool)
    ensures
        r == is_valid_identifier(s@),
{
    let len = s.unicode_len();
    if len == 0 {
        return false;
    }
    let first = s.get_char(0);
    let head_ok = ('a' <= first && first <= 'z') || ('A' <= first && first <= 'Z') || (first
        == '_' && len > 1);
    if !head_ok {
        return false;
    }
    let mut i: usize = 1;
    while i < len
        invariant
            len == s@.len(),
            1 <= i <= len,
            forall|j: int| 1 <= j < i ==> is_identifier_char(#[trigger] s@[j]),
        decreases len - i,
    {
        if !identifier_char(s.get_char(i)) {
            return false;
        }
        i = i + 1;
    }
    true
}

/// A name of a module or a function, always legal.
#[derive(Debug)]
pub struct Identifier {
    name: String,
}

impl View for Identifier {
    type V = Seq<char>;

    closed spec fn view(&self) -> Seq<char> {
        self.name@
    }
}

impl Identifier {
    #[verifier::type_invariant]
    spec fn inv(&self) -> bool {
        is_valid_identifier(self.name@)
    }

    /// The identifier spelled by `s`, or `None` where `s` is not legal.
    pub fn new(s: &str) -> (r: Option<Identifier>)
        ensures
            r is Some <==> is_valid_identifier(s@),
            r matches Some(id) ==> id@ == s@,
    {
        if is_valid(s) {
            Some(Identifier { name: s.to_owned() })
        } else {
            None
        }
    }

    /// The identifier as text, which is always legal.
    pub fn as_str(&self) -> (r: &str)
        ensures
            r@ == self@,
            is_valid_identifier(r@),
    {
        proof {
            use_type_invariant(self);
        }
        self.name.as_str()
    }

    /// Whether the identifier is spelled as `s`.
    pub fn is_spelled(&self, s: &String) -> (r: bool)
        ensures
            r == (self@ == s@),
    {
        self.name == *s
    }

    /// The identifier as an owned string.
    pub fn into_string(self) -> (r: String)
        ensures
            r@ == self@,
    {
        self.name
    }
}

impl PartialEq for Identifier {
    fn eq(&self, other: &Identifier) -> (r: bool) {
        self.name == other.name
    }
}

impl vstd::std_specs::cmp::PartialEqSpecImpl for Identifier {
    open spec fn obeys_eq_spec() -> bool {
        true
    }

    open spec fn eq_spec(&self, other: &Identifier) -> bool {
        self@ == other@
    }
}

impl Eq for Identifier {
}

impl Clone for Identifier {
    fn clone(&self) -> (r: Identifier)
        ensures
            r@ == self@,
    {
        proof {
            use_type_invariant(self);
        }
        Identifier { name: self.name.clone() }
    }
}

} // verus!
