//! Character-level text utilities: whitespace classification, trimming,
//! character-exact string comparison, and checked UTF-8 decoding.

use vstd::prelude::*;
use vstd::string::StrSliceExecFns;
use vstd::utf8::{decode_utf8, valid_utf8};

verus! {

/// A character with the Unicode `White_Space` property, the set that
/// `char::is_whitespace` recognizes.
pub open spec fn is_ws(c: char) -> bool {
    let u = c as u32;
    (9 <= u && u <= 13) || u == 32 || u == 0x85 || u == 0xA0 || u == 0x1680 || (0x2000 <= u
        && u <= 0x200A) || u == 0x2028 || u == 0x2029 || u == 0x202F || u == 0x205F || u == 0x3000
}

/// Runtime check for [`is_ws`].
pub fn is_ws_char(c: char) -> (r: bool)
    ensures
        r == is_ws(c),
{
    let u = c as u32;
    (9 <= u && u <= 13) || u == 32 || u == 0x85 || u == 0xA0 || u == 0x1680 || (0x2000 <= u
        && u <= 0x200A) || u == 0x2028 || u == 0x2029 || u == 0x202F || u == 0x205F || u == 0x3000
}

/// The characters that remain when leading and trailing whitespace is removed.
pub open spec fn trim_spec(s: Seq<char>) -> Seq<char>
    decreases s.len(),
{
    if s.len() == 0 {
        s
    } else if is_ws(s[0]) {
        trim_spec(s.drop_first())
    } else if is_ws(s[s.len() - 1]) {
        trim_spec(s.drop_last())
    } else {
        s
    }
}

/// `trim_spec` picks exactly the subrange between the first and the last
/// non-whitespace character.
proof fn lemma_trim_spec_subrange(s: Seq<char>, i: int, j: int)
    requires
        0 <= i <= j <= s.len(),
        forall|k: int| 0 <= k < i ==> is_ws(s[k]),
        forall|k: int| j <= k < s.len() ==> is_ws(s[k]),
        i < j ==> !is_ws(s[i]) && !is_ws(s[j - 1]),
    ensures
        trim_spec(s) == s.subrange(i, j),
    decreases s.len(),
{
    if s.len() == 0 {
        assert(trim_spec(s) =~= s.subrange(i, j));
    } else if is_ws(s[0]) {
        let t = s.drop_first();
        if i == 0 {
            // The first character is whitespace, so the picked subrange is empty.
            assert(i == j);
            lemma_trim_spec_subrange(t, 0, 0);
            assert(s.subrange(0, 0) =~= t.subrange(0, 0));
        } else {
            lemma_trim_spec_subrange(t, i - 1, j - 1);
            assert(s.subrange(i, j) =~= t.subrange(i - 1, j - 1));
        }
    } else if is_ws(s[s.len() - 1]) {
        // The first character is not whitespace, so nothing is stripped in front.
        assert(i == 0);
        assert(j < s.len());
        let t = s.drop_last();
        lemma_trim_spec_subrange(t, i, j);
        assert(s.subrange(i, j) =~= t.subrange(i, j));
    } else {
        assert(i == 0);
        assert(j == s.len());
        assert(trim_spec(s) =~= s.subrange(i, j));
    }
}

/// Remove leading and trailing whitespace, as `str::trim` does.
pub fn trim_str<'a>(s: &'a str) -> (r: &'a str)
    ensures
        r@ == trim_spec(s@),
{
    let len: usize = s.unicode_len();
    let mut i: usize = 0;
    while i < len && is_ws_char(s.get_char(i))
        invariant
            0 <= i <= len,
            len == s@.len(),
            forall|k: int| 0 <= k < i ==> is_ws(s@[k]),
        decreases len - i,
    {
        i = i + 1;
    }
    let mut j: usize = len;
    while j > i && is_ws_char(s.get_char(j - 1))
        invariant
            i <= j <= len,
            len == s@.len(),
            forall|k: int| j <= k < len ==> is_ws(s@[k]),
        decreases j,
    {
        j = j - 1;
    }
    let r = s.substring_char(i, j);
    proof {
        lemma_trim_spec_subrange(s@, i as int, j as int);
    }
    r
}

/// Character-exact equality of two strings.
pub fn str_eq(a: &str, b: &str) -> (r: bool)
    ensures
        r == (a@ == b@),
{
    let na: usize = a.unicode_len();
    let nb: usize = b.unicode_len();
    if na != nb {
        return false;
    }
    let mut i: usize = 0;
    while i < na
        invariant
            0 <= i <= na,
            na == a@.len(),
            nb == b@.len(),
            na == nb,
            forall|k: int| 0 <= k < i ==> a@[k] == b@[k],
        decreases na - i,
    {
        if a.get_char(i) != b.get_char(i) {
            return false;
        }
        i = i + 1;
    }
    proof {
        assert(a@ =~= b@);
    }
    true
}

/// Relies on `core::str::from_utf8`: it returns `Ok` exactly when the bytes
/// are valid UTF-8, and the string it then yields is their decoding.
#[verifier::external_body]
pub(crate) fn bytes_to_str(bytes: &[u8]) -> (r: Option<&str>)
    ensures
        r is Some <==> valid_utf8(bytes@),
        r matches Some(s) ==> s@ == decode_utf8(bytes@),
{
    core::str::from_utf8(bytes).ok()
}

} // verus!
