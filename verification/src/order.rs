//! Content-based equality and ordering.
//!
//! Two strings compare by the lexicographic order of their UTF-8 encodings —
//! the order plain owned strings compare in — regardless of which
//! representation state backs either operand.

use vstd::prelude::*;

verus! {

use core::cmp::Ordering;
use vstd::slice::slice_index_get;
use vstd::string::StringSliceAdditionalSpecFns;
use vstd::utf8::encode_utf8;

use crate::sso::SsoString;
use crate::text::lemma_encode_utf8_injective;

/// Lexicographic order of two byte sequences: the first differing byte
/// decides; a proper prefix orders before the longer sequence.
pub open spec fn lex_cmp_bytes(a: Seq<u8>, b: Seq<u8>) -> Ordering
    decreases a.len(),
{
    if a.len() == 0 && b.len() == 0 {
        Ordering::Equal
    } else if a.len() == 0 {
        Ordering::Less
    } else if b.len() == 0 {
        Ordering::Greater
    } else if a[0] < b[0] {
        Ordering::Less
    } else if a[0] > b[0] {
        Ordering::Greater
    } else {
        lex_cmp_bytes(a.drop_first(), b.drop_first())
    }
}

/// The content order of two strings: the lexicographic byte order of their
/// UTF-8 encodings.
pub open spec fn spec_cmp(a: Seq<char>, b: Seq<char>) -> Ordering {
    lex_cmp_bytes(encode_utf8(a), encode_utf8(b))
}

/// The lexicographic order reports `Equal` exactly on equal sequences.
pub proof fn lemma_lex_cmp_equal_iff(a: Seq<u8>, b: Seq<u8>)
    ensures
        lex_cmp_bytes(a, b) == Ordering::Equal <==> a == b,
    decreases a.len(),
{
    if a.len() == 0 && b.len() == 0 {
        assert(a =~= b);
    } else if a.len() > 0 && b.len() > 0 && a[0] == b[0] {
        lemma_lex_cmp_equal_iff(a.drop_first(), b.drop_first());
        if a.drop_first() == b.drop_first() {
            assert forall|k: int| 0 <= k < a.len() implies a[k] == b[k] by {
                if k > 0 {
                    assert(a[k] == a.drop_first()[k - 1]);
                    assert(b[k] == b.drop_first()[k - 1]);
                }
            }
            assert(a =~= b);
        }
    }
}

/// Skipping an equal prefix does not change the lexicographic order.
proof fn lemma_lex_cmp_skip(a: Seq<u8>, b: Seq<u8>, i: int)
    requires
        0 <= i <= a.len(),
        i <= b.len(),
        forall|j: int| 0 <= j < i ==> a[j] == b[j],
    ensures
        lex_cmp_bytes(a, b) == lex_cmp_bytes(a.skip(i), b.skip(i)),
    decreases i,
{
    if i > 0 {
        lemma_lex_cmp_skip(a.drop_first(), b.drop_first(), i - 1);
        assert(a.drop_first().skip(i - 1) =~= a.skip(i));
        assert(b.drop_first().skip(i - 1) =~= b.skip(i));
    } else {
        assert(a.skip(0) =~= a);
        assert(b.skip(0) =~= b);
    }
}

/// Compares two string slices in content order.
pub fn str_cmp(a: &str, b: &str) -> (o: Ordering)
    ensures
        o == spec_cmp(a@, b@),
{
    let ab: &[u8] = a.as_bytes();
    let bb: &[u8] = b.as_bytes();
    let a_len: usize = ab.len();
    let b_len: usize = bb.len();
    let mut i: usize = 0;
    while i < a_len && i < b_len
        invariant
            i <= a_len,
            i <= b_len,
            a_len == ab@.len(),
            b_len == bb@.len(),
            ab@ == a.spec_bytes(),
            bb@ == b.spec_bytes(),
            forall|j: int| 0 <= j < i ==> ab@[j] == bb@[j],
        decreases a_len - i,
    {
        let x: u8 = *slice_index_get(ab, i);
        let y: u8 = *slice_index_get(bb, i);
        if x < y {
            proof {
                lemma_lex_cmp_skip(ab@, bb@, i as int);
                assert(ab@.skip(i as int)[0] == x && bb@.skip(i as int)[0] == y);
            }
            return Ordering::Less;
        }
        if x > y {
            proof {
                lemma_lex_cmp_skip(ab@, bb@, i as int);
                assert(ab@.skip(i as int)[0] == x && bb@.skip(i as int)[0] == y);
            }
            return Ordering::Greater;
        }
        i = i + 1;
    }
    proof {
        lemma_lex_cmp_skip(ab@, bb@, i as int);
        if i == a_len {
            assert(ab@.skip(i as int) =~= Seq::<u8>::empty());
        }
        if i == b_len {
            assert(bb@.skip(i as int) =~= Seq::<u8>::empty());
        }
        if i < a_len {
            assert(ab@.skip(i as int).len() > 0);
        }
        if i < b_len {
            assert(bb@.skip(i as int).len() > 0);
        }
    }
    if a_len == b_len {
        Ordering::Equal
    } else if a_len < b_len {
        Ordering::Less
    } else {
        Ordering::Greater
    }
}

/// Whether two string slices hold the same content.
pub fn str_eq(a: &str, b: &str) -> (r: bool)
    ensures
        r == (a@ == b@),
{
    let o = str_cmp(a, b);
    proof {
        lemma_lex_cmp_equal_iff(a.spec_bytes(), b.spec_bytes());
        lemma_encode_utf8_injective(a@, b@);
    }
    matches!(o, Ordering::Equal)
}

impl SsoString {
    /// The content order against another string, total over all contents:
    /// `Equal` exactly on equal content, whatever states the operands are in.
    pub fn cmp(&self, other: &SsoString) -> (o: Ordering)
        ensures
            o == spec_cmp(self@, other@),
            o == Ordering::Equal <==> self@ == other@,
    {
        proof {
            lemma_lex_cmp_equal_iff(encode_utf8(self@), encode_utf8(other@));
            lemma_encode_utf8_injective(self@, other@);
        }
        str_cmp(self.as_str(), other.as_str())
    }
}

impl PartialEq for SsoString {
    /// Content equality, regardless of representation state.
    fn eq(&self, other: &Self) -> (r: bool)
        ensures
            r == (self@ == other@),
    {
        str_eq(self.as_str(), other.as_str())
    }
}

impl vstd::std_specs::cmp::PartialEqSpecImpl for SsoString {
    open spec fn obeys_eq_spec() -> bool {
        true
    }

    open spec fn eq_spec(&self, other: &Self) -> bool {
        self@ == other@
    }
}

impl Eq for SsoString {}

impl PartialOrd for SsoString {
    /// Content order, regardless of representation state.
    fn partial_cmp(&self, other: &Self) -> (r: Option<Ordering>)
        ensures
            r == Some(spec_cmp(self@, other@)),
    {
        Some(str_cmp(self.as_str(), other.as_str()))
    }
}

impl vstd::std_specs::cmp::PartialOrdSpecImpl for SsoString {
    open spec fn obeys_partial_cmp_spec() -> bool {
        true
    }

    open spec fn partial_cmp_spec(&self, other: &Self) -> Option<Ordering> {
        Some(spec_cmp(self@, other@))
    }
}

impl PartialEq<String> for SsoString {
    /// Content equality against a plain owned string.
    fn eq(&self, other: &String) -> (r: bool)
        ensures
            r == (self@ == other@),
    {
        str_eq(self.as_str(), other.as_str())
    }
}

impl vstd::std_specs::cmp::PartialEqSpecImpl<String> for SsoString {
    open spec fn obeys_eq_spec() -> bool {
        true
    }

    open spec fn eq_spec(&self, other: &String) -> bool {
        self@ == other@
    }
}

impl PartialOrd<String> for SsoString {
    /// Content order against a plain owned string.
    fn partial_cmp(&self, other: &String) -> (r: Option<Ordering>)
        ensures
            r == Some(spec_cmp(self@, other@)),
    {
        Some(str_cmp(self.as_str(), other.as_str()))
    }
}

impl vstd::std_specs::cmp::PartialOrdSpecImpl<String> for SsoString {
    open spec fn obeys_partial_cmp_spec() -> bool {
        true
    }

    open spec fn partial_cmp_spec(&self, other: &String) -> Option<Ordering> {
        Some(spec_cmp(self@, other@))
    }
}

impl<'a> PartialEq<&'a str> for SsoString {
    /// Content equality against a borrowed string slice.
    fn eq(&self, other: &&'a str) -> (r: bool)
        ensures
            r == (self@ == (*other)@),
    {
        str_eq(self.as_str(), *other)
    }
}

impl<'a> vstd::std_specs::cmp::PartialEqSpecImpl<&'a str> for SsoString {
    open spec fn obeys_eq_spec() -> bool {
        true
    }

    open spec fn eq_spec(&self, other: &&'a str) -> bool {
        self@ == (*other)@
    }
}

impl<'a> PartialOrd<&'a str> for SsoString {
    /// Content order against a borrowed string slice.
    fn partial_cmp(&self, other: &&'a str) -> (r: Option<Ordering>)
        ensures
            r == Some(spec_cmp(self@, (*other)@)),
    {
        Some(str_cmp(self.as_str(), *other))
    }
}

impl<'a> vstd::std_specs::cmp::PartialOrdSpecImpl<&'a str> for SsoString {
    open spec fn obeys_partial_cmp_spec() -> bool {
        true
    }

    open spec fn partial_cmp_spec(&self, other: &&'a str) -> Option<Ordering> {
        Some(spec_cmp(self@, (*other)@))
    }
}

} // verus!
