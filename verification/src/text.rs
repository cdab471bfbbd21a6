//! Byte-level measures of character sequences.
//!
//! The representation decisions of [`crate::sso::SsoString`] are all made on
//! the UTF-8 byte length of content, so the contracts throughout the crate
//! speak of `byte_len`, the length of the UTF-8 encoding of a `Seq<char>`.

use vstd::prelude::*;

verus! {

use vstd::utf8::encode_scalar;
use vstd::utf8::encode_utf8;

/// Number of bytes in the UTF-8 encoding of a character sequence. This is the
/// value that `str::len` returns for a string slice viewing the sequence.
pub open spec fn byte_len(s: Seq<char>) -> nat {
    encode_utf8(s).len()
}

/// Capacity given to a heap buffer allocated on append: one and a half times
/// the new content length, rounded down.
pub open spec fn grown_capacity(n: nat) -> nat {
    n + n / 2
}

/// A single scalar encodes to between one and four bytes.
pub proof fn lemma_encode_scalar_len(c: char)
    ensures
        1 <= encode_scalar(c as u32).len() <= 4,
{
}

/// The UTF-8 encoding of a concatenation is the concatenation of the
/// encodings, so byte lengths add up.
pub proof fn lemma_byte_len_concat(a: Seq<char>, b: Seq<char>)
    ensures
        encode_utf8(a + b) == encode_utf8(a) + encode_utf8(b),
        byte_len(a + b) == byte_len(a) + byte_len(b),
    decreases a.len(),
{
    if a.len() == 0 {
        assert(a + b =~= b);
        assert(encode_utf8(a) + encode_utf8(b) =~= encode_utf8(b));
    } else {
        assert((a + b).drop_first() =~= a.drop_first() + b);
        lemma_byte_len_concat(a.drop_first(), b);
        assert(encode_utf8(a + b) =~= encode_utf8(a) + encode_utf8(b));
    }
}

/// A character sequence is empty exactly when its UTF-8 encoding is empty.
pub proof fn lemma_byte_len_zero(s: Seq<char>)
    ensures
        byte_len(s) == 0 <==> s.len() == 0,
{
    if s.len() > 0 {
        lemma_encode_scalar_len(s[0]);
    }
}

/// Byte length of a one-character sequence.
pub proof fn lemma_byte_len_single(c: char)
    ensures
        1 <= byte_len(seq![c]) <= 4,
{
    lemma_encode_scalar_len(c);
    let s = seq![c];
    assert(s.len() == 1 && s[0] == c);
    assert(s.drop_first() =~= Seq::<char>::empty());
    assert(encode_utf8(s) == encode_scalar(c as u32) + encode_utf8(Seq::<char>::empty()));
    assert(encode_scalar(c as u32) + encode_utf8(Seq::<char>::empty()) =~= encode_scalar(
        c as u32,
    ));
}

/// The byte length of a string slice, the value `str::len` reports; it
/// always fits in `usize`.
pub fn str_byte_len(s: &str) -> (n: usize)
    ensures
        n == byte_len(s@),
{
    s.as_bytes().len()
}

/// Two character sequences with the same UTF-8 encoding are the same.
pub proof fn lemma_encode_utf8_injective(a: Seq<char>, b: Seq<char>)
    ensures
        encode_utf8(a) == encode_utf8(b) <==> a == b,
{
    if encode_utf8(a) == encode_utf8(b) {
        vstd::utf8::encode_utf8_decode_utf8(a);
        vstd::utf8::encode_utf8_decode_utf8(b);
    }
}

} // verus!
