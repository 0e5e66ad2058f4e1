//! Which strings can name a setter.
//!
//! A setter is emitted under the name that an annotation gives, so the name
//! has to be an identifier: a first character that is `_` or has the Unicode
//! property XID_Start, then characters with the property XID_Continue. The
//! prefix `r#` marks a raw identifier, which may be a keyword but not one of
//! the five names that cannot be raw. The two Unicode properties are looked up
//! by `unicode_ident`.

use vstd::prelude::*;

verus! {

/// Whether a character has the Unicode property XID_Start, as the tables of
/// `unicode_ident` give it.
pub uninterp spec fn xid_start(c: char) -> bool;

/// Whether a character has the Unicode property XID_Continue, as the tables of
/// `unicode_ident` give it.
pub uninterp spec fn xid_continue(c: char) -> bool;

/// `unicode_ident::is_xid_start` looks the character up in the crate's table
/// of XID_Start. It reads nothing but the character and its own constant
/// tables, and returns for every character.
pub assume_specification[ unicode_ident::is_xid_start ](ch: char) -> (b: bool)
    ensures
        b == xid_start(ch),
;

/// `unicode_ident::is_xid_continue` looks the character up in the crate's
/// table of XID_Continue. It reads nothing but the character and its own
/// constant tables, and returns for every character.
pub assume_specification[ unicode_ident::is_xid_continue ](ch: char) -> (b: bool)
    ensures
        b == xid_continue(ch),
;

/// An identifier without the raw prefix.
pub open spec fn is_plain_identifier_spec(s: Seq<char>) -> bool {
    &&& s.len() > 0
    &&& (s[0] == '_' || xid_start(s[0]))
    &&& forall|i: int| 1 <= i < s.len() ==> xid_continue(#[trigger] s[i])
}

/// Whether the string begins with `r#`.
pub open spec fn has_raw_prefix(s: Seq<char>) -> bool {
    s.len() >= 2 && s[0] == 'r' && s[1] == '#'
}

/// The names that are identifiers but cannot follow `r#`.
pub open spec fn cannot_be_raw(s: Seq<char>) -> bool {
    s == "_"@ || s == "super"@ || s == "self"@ || s == "Self"@ || s == "crate"@
}

/// Whether the string can be written where a setter's name is expected.
pub open spec fn is_identifier_spec(s: Seq<char>) -> bool {
    if has_raw_prefix(s) {
        is_plain_identifier_spec(s.skip(2)) && !cannot_be_raw(s.skip(2))
    } else {
        is_plain_identifier_spec(s)
    }
}

/// Tests a string for being an identifier without the raw prefix.
pub fn is_plain_identifier(text: &str) -> (ok: bool)
    ensures
        ok == is_plain_identifier_spec(text@),
{
    let n = text.unicode_len();
    if n == 0 {
        return false;
    }
    let first = text.get_char(0);
    if !(first == '_' || unicode_ident::is_xid_start(first)) {
        return false;
    }
    let mut i: usize = 1;
    while i < n
        invariant
            1 <= i <= n,
            n == text@.len(),
            forall|k: int| 1 <= k < i ==> xid_continue(#[trigger] text@[k]),
        decreases n - i,
    {
        if !unicode_ident::is_xid_continue(text.get_char(i)) {
            return false;
        }
        i += 1;
    }
    true
}

/// Tests a string for being one of the names that cannot follow `r#`.
fn reserved_from_raw(text: &str) -> (reserved: bool)
    ensures
        reserved == cannot_be_raw(text@),
{
    let name = String::from_str(text);
    name == String::from_str("_") || name == String::from_str("super") || name == String::from_str(
        "self",
    ) || name == String::from_str("Self") || name == String::from_str("crate")
}

/// Tests a string for being an identifier, raw or not.
pub fn is_identifier(text: &str) -> (ok: bool)
    ensures
        ok == is_identifier_spec(text@),
{
    let n = text.unicode_len();
    if n >= 2 && text.get_char(0) == 'r' && text.get_char(1) == '#' {
        let body = text.substring_char(2, n);
        is_plain_identifier(body) && !reserved_from_raw(body)
    } else {
        is_plain_identifier(text)
    }
}

} // verus!
