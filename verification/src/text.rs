//! Text helpers that the scan needs: equality of two strings as character
//! sequences, and ASCII lower-casing.

use vstd::prelude::*;
use vstd::string::StringSliceAdditionalSpecFns;
use vstd::utf8::encode_utf8_decode_utf8;

verus! {

/// The lower-case form of one character: the letters `A` to `Z` move to `a`
/// to `z`, every other character stays.
pub open spec fn lower_char(c: char) -> char {
    if 'A' <= c && c <= 'Z' {
        ((c as u32) + 32) as char
    } else {
        c
    }
}

/// The lower-case form of a text, character by character.
pub open spec fn ascii_lower(text: Seq<char>) -> Seq<char> {
    Seq::new(text.len(), |i: int| lower_char(text[i]))
}

/// Whether two strings hold the same characters.
pub fn same_text(left: &str, right: &str) -> (same: bool)
    ensures
        same == (left@ == right@),
{
    let a = left.as_bytes();
    let b = right.as_bytes();
    proof {
        encode_utf8_decode_utf8(left@);
        encode_utf8_decode_utf8(right@);
    }
    if a.len() != b.len() {
        return false;
    }
    let mut i: usize = 0;
    while i < a.len()
        invariant
            i <= a.len(),
            a.len() == b.len(),
            a@ == left.spec_bytes(),
            b@ == right.spec_bytes(),
            forall|k: int| 0 <= k < i ==> a@[k] == b@[k],
        decreases a.len() - i,
    {
        if a[i] != b[i] {
            return false;
        }
        i += 1;
    }
    assert(a@ =~= b@);
    true
}

/// The lower-case copy of a text.
///
/// Calls `str::to_ascii_lowercase`, which std documents as mapping the ASCII
/// letters `A` to `Z` to `a` to `z` and leaving every other character as it
/// is; the contract says that and no more.
#[verifier::external_body]
pub(crate) fn to_lower(text: &str) -> (lowered: String)
    ensures
        lowered@ == ascii_lower(text@),
{
    text.to_ascii_lowercase()
}

} // verus!
