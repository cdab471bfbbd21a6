//! Read-only pass-throughs over the borrowed content view: substring
//! search, prefix and suffix tests, splitting, and character iteration.
//! Each consumes [`crate::sso::SsoString::as_str`] and adds no state.

use vstd::prelude::*;

verus! {

use core::str::Chars;
use vstd::std_specs::iter::IteratorSpec;
use vstd::string::StringSliceAdditionalSpecFns;
use vstd::utf8::encode_utf8;
use vstd::utf8::is_char_boundary;

use crate::sso::SsoString;
use crate::text::byte_len;
use crate::text::lemma_byte_len_concat;
use crate::text::lemma_encode_utf8_injective;

/// Whether the pattern `p` occurs in `s` starting at position `i`.
pub open spec fn is_match_at(s: Seq<char>, p: Seq<char>, i: int) -> bool {
    &&& 0 <= i
    &&& i + p.len() <= s.len()
    &&& s.subrange(i, i + p.len() as int) == p
}

/// Whether the pattern `p` occurs anywhere in `s`.
pub open spec fn contains_seq(s: Seq<char>, p: Seq<char>) -> bool {
    exists|i: int| is_match_at(s, p, i)
}

/// Relies on `str::contains` with a string pattern: true exactly when the
/// pattern's content occurs as a contiguous run of characters.
#[verifier::external_body]
fn str_contains(s: &str, pat: &str) -> (r: bool)
    ensures
        r == contains_seq(s@, pat@),
{
    s.contains(pat)
}

/// Relies on `str::starts_with` with a string pattern: true exactly when
/// the content begins with the pattern's content.
#[verifier::external_body]
fn str_starts_with(s: &str, pat: &str) -> (r: bool)
    ensures
        r == is_match_at(s@, pat@, 0),
{
    s.starts_with(pat)
}

/// Relies on `str::ends_with` with a string pattern: true exactly when the
/// content ends with the pattern's content.
#[verifier::external_body]
fn str_ends_with(s: &str, pat: &str) -> (r: bool)
    ensures
        r == is_match_at(s@, pat@, s@.len() - pat@.len()),
{
    s.ends_with(pat)
}

/// Relies on `str::split_once`: splits around the first occurrence of the
/// delimiter, or reports that there is none.
#[verifier::external_body]
fn str_split_once<'a>(s: &'a str, delimiter: &str) -> (r: Option<(&'a str, &'a str)>)
    ensures
        match r {
            Some(pair) => {
                &&& s@ == pair.0@ + delimiter@ + pair.1@
                &&& is_match_at(s@, delimiter@, pair.0@.len() as int)
                &&& forall|i: int| 0 <= i < pair.0@.len() ==> !is_match_at(s@, delimiter@, i)
            },
            None => !contains_seq(s@, delimiter@),
        },
{
    s.split_once(delimiter)
}

/// Relies on `str::rsplit_once`: splits around the last occurrence of the
/// delimiter, or reports that there is none.
#[verifier::external_body]
fn str_rsplit_once<'a>(s: &'a str, delimiter: &str) -> (r: Option<(&'a str, &'a str)>)
    ensures
        match r {
            Some(pair) => {
                &&& s@ == pair.0@ + delimiter@ + pair.1@
                &&& is_match_at(s@, delimiter@, pair.0@.len() as int)
                &&& forall|i: int|
                    pair.0@.len() < i <= s@.len() ==> !is_match_at(s@, delimiter@, i)
            },
            None => !contains_seq(s@, delimiter@),
        },
{
    s.rsplit_once(delimiter)
}

impl SsoString {
    /// Whether `pat`'s content occurs anywhere in the content.
    pub fn contains(&self, pat: &str) -> (r: bool)
        ensures
            r == contains_seq(self@, pat@),
    {
        str_contains(self.as_str(), pat)
    }

    /// Whether the content begins with `pat`'s content.
    pub fn starts_with(&self, pat: &str) -> (r: bool)
        ensures
            r == is_match_at(self@, pat@, 0),
    {
        str_starts_with(self.as_str(), pat)
    }

    /// Whether the content ends with `pat`'s content.
    pub fn ends_with(&self, pat: &str) -> (r: bool)
        ensures
            r == is_match_at(self@, pat@, self@.len() - pat@.len()),
    {
        str_ends_with(self.as_str(), pat)
    }

    /// The content around the first occurrence of `delimiter`, or `None`
    /// when the delimiter does not occur.
    pub fn split_once<'a>(&'a self, delimiter: &str) -> (r: Option<(&'a str, &'a str)>)
        ensures
            match r {
                Some(pair) => {
                    &&& self@ == pair.0@ + delimiter@ + pair.1@
                    &&& is_match_at(self@, delimiter@, pair.0@.len() as int)
                    &&& forall|i: int| 0 <= i < pair.0@.len() ==> !is_match_at(self@, delimiter@, i)
                },
                None => !contains_seq(self@, delimiter@),
            },
    {
        str_split_once(self.as_str(), delimiter)
    }

    /// The content around the last occurrence of `delimiter`, or `None`
    /// when the delimiter does not occur.
    pub fn rsplit_once<'a>(&'a self, delimiter: &str) -> (r: Option<(&'a str, &'a str)>)
        ensures
            match r {
                Some(pair) => {
                    &&& self@ == pair.0@ + delimiter@ + pair.1@
                    &&& is_match_at(self@, delimiter@, pair.0@.len() as int)
                    &&& forall|i: int|
                        pair.0@.len() < i <= self@.len() ==> !is_match_at(self@, delimiter@, i)
                },
                None => !contains_seq(self@, delimiter@),
            },
    {
        str_rsplit_once(self.as_str(), delimiter)
    }

    /// The content split at byte position `mid`, which must lie on a
    /// character boundary; the two halves concatenate back to the content.
    pub fn split_at(&self, mid: usize) -> (r: (&str, &str))
        requires
            is_char_boundary(encode_utf8(self@), mid as int),
        ensures
            r.0@ + r.1@ == self@,
            encode_utf8(r.0@) == encode_utf8(self@).subrange(0, mid as int),
            encode_utf8(r.1@) == encode_utf8(self@).subrange(mid as int, byte_len(self@) as int),
    {
        proof {
            vstd::utf8::encode_utf8_valid_utf8(self@);
            assert(0 <= mid as int <= encode_utf8(self@).len());
        }
        let s = self.as_str();
        let r = s.split_at(mid);
        proof {
            lemma_byte_len_concat(r.0@, r.1@);
            assert(encode_utf8(r.0@) + encode_utf8(r.1@) =~= encode_utf8(self@));
            lemma_encode_utf8_injective(r.0@ + r.1@, self@);
        }
        r
    }

    /// Same as [`SsoString::split_at`], with the boundary test made at run
    /// time: `None` exactly when `mid` is not a character boundary.
    pub fn split_at_checked(&self, mid: usize) -> (r: Option<(&str, &str)>)
        ensures
            r is Some <==> is_char_boundary(encode_utf8(self@), mid as int),
            r is Some ==> r->Some_0.0@ + r->Some_0.1@ == self@,
            r is Some ==> encode_utf8(r->Some_0.0@) == encode_utf8(self@).subrange(0, mid as int),
    {
        let s = self.as_str();
        if s.is_char_boundary(mid) {
            Some(self.split_at(mid))
        } else {
            None
        }
    }

    /// An iterator over the content's characters.
    pub fn chars(&self) -> (it: Chars<'_>)
        ensures
            it.remaining() == self@,
    {
        proof {
            broadcast use vstd::string::axiom_spec_iter;
        }
        self.as_str().chars()
    }
}

} // verus!
