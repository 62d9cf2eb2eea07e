//! Package names: Unicode identifiers that may also hold `_` and `-`.
use vstd::prelude::*;
use vstd::string::*;

verus! {

/// Whether a character is in the Unicode XID_Start class.
pub uninterp spec fn xid_start(c: char) -> bool;

/// Whether a character is in the Unicode XID_Continue class.
pub uninterp spec fn xid_continue(c: char) -> bool;

/// Relies on unicode_ident::is_xid_start: membership of the XID_Start class.
#[verifier::external_body]
fn xid_start_exec(c: char) -> (r: bool)
    ensures
        r == xid_start(c),
{
    unicode_ident::is_xid_start(c)
}

/// Relies on unicode_ident::is_xid_continue: membership of the XID_Continue class.
#[verifier::external_body]
fn xid_continue_exec(c: char) -> (r: bool)
    ensures
        r == xid_continue(c),
{
    unicode_ident::is_xid_continue(c)
}

/// A character that may start an identifier.
pub open spec fn id_start(c: char) -> bool {
    xid_start(c) || c == '_'
}

/// A character that may continue an identifier.
pub open spec fn id_continue(c: char) -> bool {
    xid_continue(c) || c == '_' || c == '-'
}

/// A non-empty sequence that starts with an identifier-start character and
/// goes on with identifier-continue characters only.
pub open spec fn spec_is_ident(s: Seq<char>) -> bool {
    &&& s.len() > 0
    &&& id_start(s[0])
    &&& forall|i: int| 1 <= i < s.len() ==> id_continue(#[trigger] s[i])
}

/// Whether a character can start an identifier.
pub fn is_id_start(c: char) -> (r: bool)
    ensures
        r == id_start(c),
{
    xid_start_exec(c) || c == '_'
}

/// Whether a character can continue an identifier.
pub fn is_id_continue(c: char) -> (r: bool)
    ensures
        r == id_continue(c),
{
    xid_continue_exec(c) || c == '_' || c == '-'
}

/// Whether a string is a valid package identifier.
pub fn is_ident(s: &str) -> (r: bool)
    ensures
        r == spec_is_ident(s@),
{
    let n = s.unicode_len();
    if n == 0 {
        return false;
    }
    if !is_id_start(s.get_char(0)) {
        return false;
    }
    let mut i: usize = 1;
    while i < n
        invariant
            1 <= i <= n,
            n == s@.len(),
            forall|j: int| 1 <= j < i ==> id_continue(#[trigger] s@[j]),
        decreases n - i,
    {
        if !is_id_continue(s.get_char(i)) {
            return false;
        }
        i = i + 1;
    }
    true
}

} // verus!
