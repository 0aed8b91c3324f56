//! Decoding the null-terminated, zero-padded byte fields of the
//! operating-system record into owned text.

use vstd::prelude::*;

verus! {

/// Index of the first zero byte of `s`, or `s.len()` when `s` holds none.
pub open spec fn first_null(s: Seq<u8>) -> int
    decreases s.len(),
{
    if s.len() == 0 {
        0
    } else if s[0] == 0 {
        0
    } else {
        1 + first_null(s.drop_first())
    }
}

/// The bytes of `s` that come before its first zero byte.
pub open spec fn null_prefix(s: Seq<u8>) -> Seq<u8> {
    s.take(first_null(s))
}

/// Every byte of `s` is plain ASCII.
pub open spec fn ascii_only(s: Seq<u8>) -> bool {
    forall|i: int| 0 <= i < s.len() ==> s[i] < 0x80
}

/// Each byte of `s` read as the character with the same code point.
pub open spec fn chars_of(s: Seq<u8>) -> Seq<char> {
    s.map_values(|b: u8| b as char)
}

/// The text that a permissive ("lossy") UTF-8 decode yields on `s`.
pub uninterp spec fn lossy_utf8(s: Seq<u8>) -> Seq<char>;

/// The text carried by a null-terminated byte field: the bytes before the
/// first zero byte, decoded permissively as UTF-8.
pub open spec fn decoded(s: Seq<u8>) -> Seq<char> {
    lossy_utf8(null_prefix(s))
}

/// Relies on `String::from_utf8_lossy`: its result is a function of the bytes
/// alone, and bytes that are valid UTF-8 — in particular plain ASCII — decode
/// to the characters with the same code points.
#[verifier::external_body]
fn utf8_lossy_string(bytes: &[u8]) -> (r: String)
    ensures
        r@ == lossy_utf8(bytes@),
        ascii_only(bytes@) ==> r@ == chars_of(bytes@),
{
    String::from_utf8_lossy(bytes).into_owned()
}

/// `first_null(s)` is exactly the position of the terminator that a
/// left-to-right scan stops at.
proof fn lemma_first_null_at(s: Seq<u8>, i: int)
    requires
        0 <= i <= s.len(),
        forall|j: int| 0 <= j < i ==> s[j] != 0,
        i < s.len() ==> s[i] == 0,
    ensures
        first_null(s) == i,
    decreases s.len(),
{
    if i == 0 {
        if s.len() != 0 {
            assert(s[0] == 0);
        }
    } else {
        assert(s[0] != 0);
        let t = s.drop_first();
        assert forall|j: int| 0 <= j < i - 1 implies t[j] != 0 by {
            assert(t[j] == s[j + 1]);
        }
        assert(i - 1 < t.len() ==> t[i - 1] == s[i] == 0);
        lemma_first_null_at(t, i - 1);
    }
}

/// Text before the first zero byte of `chars`, decoded permissively; for an
/// all-ASCII prefix the decode is exact.
pub fn chars_to_string(chars: &[u8]) -> (r: String)
    ensures
        r@ == decoded(chars@),
        ascii_only(null_prefix(chars@)) ==> r@ == chars_of(null_prefix(chars@)),
{
    let mut arr: Vec<u8> = Vec::new();
    let mut i: usize = 0;
    while i < chars.len() && chars[i] != 0
        invariant
            i <= chars@.len(),
            arr@ == chars@.take(i as int),
            forall|j: int| 0 <= j < i ==> chars@[j] != 0,
        decreases chars@.len() - i,
    {
        arr.push(chars[i]);
        i = i + 1;
    }
    proof {
        lemma_first_null_at(chars@, i as int);
    }
    utf8_lossy_string(arr.as_slice())
}

} // verus!
