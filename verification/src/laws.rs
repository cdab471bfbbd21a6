//! Laws of the representation machine, stated once over the named
//! transition relations and proved for every value they relate.

use vstd::prelude::*;

verus! {

use core::cmp::Ordering;
use vstd::std_specs::cmp::PartialEqSpec;
use vstd::std_specs::cmp::PartialOrdSpec;
use vstd::utf8::encode_utf8;

use crate::order::lemma_lex_cmp_equal_iff;
use crate::order::spec_cmp;
use crate::sso::INLINE_CAPACITY;
use crate::sso::SsoString;
use crate::sso::push_assume_post;
use crate::sso::push_post;
use crate::text::byte_len;
use crate::text::grown_capacity;
use crate::text::lemma_byte_len_concat;
use crate::text::lemma_byte_len_zero;
use crate::text::lemma_encode_utf8_injective;

/// Appending an empty string changes no observable field: content, both
/// state tags and the capacity all stay what they were.
pub proof fn lemma_append_empty_is_noop(pre: SsoString, s: Seq<char>, post: SsoString)
    requires
        s.len() == 0,
        push_post(pre, s, post),
    ensures
        post@ == pre@,
        post.spec_is_inlined() == pre.spec_is_inlined(),
        post.spec_is_static() == pre.spec_is_static(),
        post.spec_capacity() == pre.spec_capacity(),
{
    assert(pre@ + s =~= pre@);
}

/// Appending across the inline boundary: a value holding exactly the
/// inline capacity that receives at least one more byte becomes
/// heap-backed, with content the plain concatenation and capacity at least
/// the new length.
pub proof fn lemma_inline_boundary_append(pre: SsoString, s: Seq<char>, post: SsoString)
    requires
        pre.spec_is_inlined(),
        byte_len(pre@) == INLINE_CAPACITY,
        byte_len(s) >= 1,
        push_post(pre, s, post),
    ensures
        post.spec_is_heap(),
        post@ == pre@ + s,
        byte_len(post@) <= post.spec_capacity(),
{
    lemma_byte_len_zero(s);
    lemma_byte_len_concat(pre@, s);
}

/// The growth factor of the general append: whenever it moves content into
/// a fresh heap buffer — spilling from inline, copying out of static, or
/// outgrowing an owned buffer — the new capacity is exactly
/// ⌊new length · 3/2⌋, hence at least the new length.
pub proof fn lemma_append_growth_factor(pre: SsoString, s: Seq<char>, post: SsoString)
    requires
        push_post(pre, s, post),
        s.len() > 0,
        post.spec_is_heap(),
        pre.spec_is_heap() ==> byte_len(pre@) + byte_len(s) > pre.spec_capacity(),
    ensures
        post.spec_capacity() == grown_capacity(byte_len(post@)),
        post.spec_capacity() >= byte_len(post@),
{
    lemma_byte_len_concat(pre@, s);
    lemma_byte_len_zero(s);
}

/// The growth factor of the tagged append, for each tag whose branch
/// allocates: the fresh capacity is exactly ⌊new length · 3/2⌋, hence at
/// least the new length.
pub proof fn lemma_tagged_append_growth_factor(
    tag: u32,
    pre: SsoString,
    s: Seq<char>,
    post: SsoString,
)
    requires
        push_assume_post(tag, pre, s, post),
        tag == 0 || tag == 2 || tag == 3,
        tag == 0 ==> byte_len(pre@) + byte_len(s) > INLINE_CAPACITY,
        tag == 2 ==> s.len() > 0 && byte_len(pre@) + byte_len(s) > INLINE_CAPACITY,
        tag == 3 ==> byte_len(pre@) + byte_len(s) > pre.spec_capacity(),
    ensures
        post.spec_capacity() == grown_capacity(byte_len(post@)),
        post.spec_capacity() >= byte_len(post@),
{
    lemma_byte_len_concat(pre@, s);
}

/// Equality and ordering are functions of content alone and agree with the
/// comparisons of plain owned strings: whatever representation states the
/// operands are in, two values are equal exactly when owned strings of the
/// same contents are, and they order by the same content comparison.
pub proof fn lemma_compare_by_content(a: SsoString, b: SsoString, x: String, y: String)
    requires
        x@ == a@,
        y@ == b@,
    ensures
        a.eq_spec(&b) == (x@ == y@),
        a.partial_cmp_spec(&b) == Some(spec_cmp(x@, y@)),
        spec_cmp(a@, b@) == Ordering::Equal <==> a@ == b@,
{
    lemma_lex_cmp_equal_iff(encode_utf8(a@), encode_utf8(b@));
    lemma_encode_utf8_injective(a@, b@);
}

} // verus!
