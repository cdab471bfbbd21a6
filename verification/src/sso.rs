//! The small-string value and its three-state representation machine.
//!
//! An [`SsoString`] is always in exactly one of three states:
//!
//! * **Inline**: the content is held directly in the value; no heap buffer
//!   exists and the capacity is the fixed inline capacity.
//! * **Static**: the value borrows content from memory valid for the whole
//!   program, without copying; the capacity equals the length exactly, and
//!   the first mutation copies the content out (copy-on-write).
//! * **Heap**: the value owns a buffer of `capacity` bytes, grown by a factor
//!   of one and a half whenever an append outgrows it.
//!
//! All lengths and capacities are counted in UTF-8 bytes. The contracts
//! describe every operation's result and state transition through the
//! relations [`from_post`], [`push_post`], [`push_assume_post`] and the
//! `spec_*` observers, so that the transition rules are single, named
//! statements rather than clauses repeated at each call site.
//!
//! The state is an explicit tagged union rather than a bit-packed metadata
//! byte aliased over three machine words: the byte-level layout needs raw
//! pointer arithmetic, which cannot be verified, while the tag carries the
//! same observable information — the inline and static flags and, through
//! the inline content itself, the inline length.

use vstd::prelude::*;

verus! {

use core::mem;
use vstd::pervasive::unreached;
use vstd::string::StringExecFns;
use vstd::string::StringSliceAdditionalSpecFns;
use vstd::utf8::decode_utf8;
use vstd::utf8::encode_utf8;
use vstd::utf8::valid_utf8;

use crate::precond::SsosPrecond;
use crate::precond::SsosPrecondType;
use crate::text::byte_len;
use crate::text::grown_capacity;
use crate::text::str_byte_len;
use crate::text::lemma_byte_len_concat;
use crate::text::lemma_byte_len_single;
use crate::text::lemma_byte_len_zero;
use crate::text::lemma_encode_utf8_injective;

/// Greatest number of content bytes the inline representation holds. The
/// layout is pinned to a 64-bit machine word: three words of storage minus
/// the metadata byte.
pub const INLINE_CAPACITY: usize = 23;

/// The three representation states. The variant is the runtime tag that the
/// general operations branch on.
#[derive(Debug)]
enum Repr {
    /// Content held inside the value itself.
    Inline { content: String },
    /// Content borrowed, uncopied, from memory valid for the whole program.
    Static { shared: &'static str },
    /// Content owned in a buffer with room for `cap` bytes.
    Heap { content: String, cap: usize },
}

/// An owned growable UTF-8 string that stores short content inline, shares
/// permanently valid content without copying, and otherwise owns a heap
/// buffer that grows geometrically on append.
#[derive(Debug)]
pub struct SsoString {
    repr: Repr,
}

/// Conversion into an [`SsoString`] by copying, as [`SsoString::from`] does.
pub trait SsoStringable {
    /// The character content of this value.
    spec fn content(&self) -> Seq<char>;

    /// An [`SsoString`] holding this value's content: inline when it fits,
    /// heap-backed with exact capacity otherwise.
    fn to_sso_string(&self) -> (r: SsoString)
        ensures
            from_post(self.content(), r),
    ;
}

impl View for SsoString {
    type V = Seq<char>;

    /// The character content, regardless of representation.
    closed spec fn view(&self) -> Seq<char> {
        match self.repr {
            Repr::Inline { content } => content@,
            Repr::Static { shared } => shared@,
            Repr::Heap { content, .. } => content@,
        }
    }
}

impl SsoString {
    /// The length never exceeds the capacity, under each state's own
    /// definition of capacity.
    #[verifier::type_invariant]
    spec fn wf(&self) -> bool {
        match self.repr {
            Repr::Inline { content } => byte_len(content@) <= INLINE_CAPACITY,
            Repr::Static { shared: _ } => true,
            Repr::Heap { content, cap } => byte_len(content@) <= cap,
        }
    }

    /// Whether the content lives inside the value itself.
    pub closed spec fn spec_is_inlined(&self) -> bool {
        self.repr is Inline
    }

    /// Whether the content is shared from permanently valid external memory.
    pub closed spec fn spec_is_static(&self) -> bool {
        self.repr is Static
    }

    /// Whether the value owns a heap buffer: the state left when it is
    /// neither inline nor static. The tags never encode a fourth state.
    pub open spec fn spec_is_heap(&self) -> bool {
        !self.spec_is_inlined() && !self.spec_is_static()
    }

    /// The capacity in bytes: the fixed inline capacity when inline, exactly
    /// the length when static, and the owned buffer's size when heap.
    pub closed spec fn spec_capacity(&self) -> nat {
        match self.repr {
            Repr::Inline { .. } => INLINE_CAPACITY as nat,
            Repr::Static { shared } => byte_len(shared@),
            Repr::Heap { cap, .. } => cap as nat,
        }
    }
}

/// What construction by copying guarantees: content equal to the source,
/// inline exactly when the source fits the inline capacity, and otherwise a
/// heap buffer sized exactly to the content.
pub open spec fn from_post(s: Seq<char>, r: SsoString) -> bool {
    &&& r@ == s
    &&& !r.spec_is_static()
    &&& (byte_len(s) <= INLINE_CAPACITY <==> r.spec_is_inlined())
    &&& (byte_len(s) > INLINE_CAPACITY ==> r.spec_capacity() == byte_len(s))
}

/// What appending content `s` to a value `pre` guarantees, as [`SsoString::push_str`]
/// performs it. The new content is always the concatenation; the state moves
/// by the transition rules of the representation machine:
///
/// * appending nothing changes no observable field;
/// * an inline value stays inline while the result fits the inline capacity,
///   and otherwise moves to a heap buffer grown by half;
/// * a static value first copies its content out (copy-on-write), landing
///   inline when the result fits and otherwise in a grown heap buffer;
/// * a heap value appends in place while its capacity suffices, and
///   otherwise grows its buffer by half.
pub open spec fn push_post(pre: SsoString, s: Seq<char>, post: SsoString) -> bool {
    let n = byte_len(pre@) + byte_len(s);
    &&& post@ == pre@ + s
    &&& if s.len() == 0 {
        &&& post.spec_is_inlined() == pre.spec_is_inlined()
        &&& post.spec_is_static() == pre.spec_is_static()
        &&& post.spec_capacity() == pre.spec_capacity()
    } else if pre.spec_is_inlined() || pre.spec_is_static() {
        if n <= INLINE_CAPACITY {
            post.spec_is_inlined() && !post.spec_is_static()
        } else {
            post.spec_is_heap() && post.spec_capacity() == grown_capacity(n)
        }
    } else {
        &&& post.spec_is_heap()
        &&& if n <= pre.spec_capacity() {
            post.spec_capacity() == pre.spec_capacity()
        } else {
            post.spec_capacity() == grown_capacity(n)
        }
    }
}

/// What the tagged append [`SsoString::push_str_assume`] guarantees for each
/// asserted tag. Each tag performs exactly the branch of the general append
/// that matches the asserted state — under a truthful tag the observable
/// outcome never diverges from [`push_post`] — and the capacity-assuming
/// tags merely skip the capacity check their precondition discharges.
pub open spec fn push_assume_post(
    tag: SsosPrecondType,
    pre: SsoString,
    s: Seq<char>,
    post: SsoString,
) -> bool {
    let n = byte_len(pre@) + byte_len(s);
    &&& post@ == pre@ + s
    &&& if tag == 0 {
        if n <= INLINE_CAPACITY {
            post.spec_is_inlined() && !post.spec_is_static()
        } else {
            post.spec_is_heap() && post.spec_capacity() == grown_capacity(n)
        }
    } else if tag == 1 {
        post.spec_is_inlined() && !post.spec_is_static()
    } else if tag == 2 {
        if s.len() == 0 {
            &&& post.spec_is_inlined() == pre.spec_is_inlined()
            &&& post.spec_is_static() == pre.spec_is_static()
            &&& post.spec_capacity() == pre.spec_capacity()
        } else if n <= INLINE_CAPACITY {
            post.spec_is_inlined() && !post.spec_is_static()
        } else {
            post.spec_is_heap() && post.spec_capacity() == grown_capacity(n)
        }
    } else if tag == 3 {
        &&& post.spec_is_heap()
        &&& if n <= pre.spec_capacity() {
            post.spec_capacity() == pre.spec_capacity()
        } else {
            post.spec_capacity() == grown_capacity(n)
        }
    } else {
        post.spec_is_heap() && post.spec_capacity() == pre.spec_capacity()
    }
}

/// Exactly one of the three states is active in any value.
pub proof fn lemma_states_exclusive(s: SsoString)
    ensures
        s.spec_is_inlined() ==> !s.spec_is_static() && !s.spec_is_heap(),
        s.spec_is_static() ==> !s.spec_is_inlined() && !s.spec_is_heap(),
        s.spec_is_inlined() || s.spec_is_static() || s.spec_is_heap(),
{
}

/// The per-state capacity laws: an inline value's capacity is the fixed
/// inline constant, and a static value's capacity is exactly its length.
pub proof fn lemma_state_capacity(s: SsoString)
    ensures
        s.spec_is_inlined() ==> s.spec_capacity() == INLINE_CAPACITY,
        s.spec_is_static() ==> s.spec_capacity() == byte_len(s@),
{
}

impl SsoString {
    /// An empty string, held inline.
    pub fn new() -> (r: Self)
        ensures
            r@ == Seq::<char>::empty(),
            r.spec_is_inlined(),
            !r.spec_is_static(),
    {
        SsoString { repr: Repr::Inline { content: String::new() } }
    }

    /// An owned copy of `s`: inline when it fits, otherwise heap-backed with
    /// capacity exactly the content length.
    pub fn from(s: &str) -> (r: Self)
        ensures
            from_post(s@, r),
    {
        let n: usize = str_byte_len(s);
        if n > INLINE_CAPACITY {
            let content = owned_with_room(s, n);
            SsoString { repr: Repr::Heap { content, cap: n } }
        } else {
            SsoString { repr: Repr::Inline { content: s.to_owned() } }
        }
    }

    /// Shares `s` without copying, whatever its length: the value becomes
    /// static, with capacity exactly the length. Short static content is
    /// deliberately not inlined, preserving zero-copy construction; it is
    /// copied out only on the first mutation.
    pub fn from_static(s: &'static str) -> (r: Self)
        ensures
            r@ == s@,
            r.spec_is_static(),
            !r.spec_is_inlined(),
            r.spec_capacity() == byte_len(s@),
    {
        SsoString { repr: Repr::Static { shared: s } }
    }

    /// A heap-backed string holding the characters that `bytes` encodes,
    /// with the vector's capacity, when `bytes` is well-formed UTF-8; the
    /// decode error, owning nothing, otherwise.
    pub fn from_utf8(bytes: Vec<u8>) -> (r: Result<Self, core::str::Utf8Error>)
        ensures
            r is Ok <==> valid_utf8(bytes@),
            r is Ok ==> encode_utf8(r->Ok_0@) == bytes@,
            r is Ok ==> r->Ok_0@ == decode_utf8(bytes@),
            r is Ok ==> r->Ok_0.spec_is_heap(),
            r is Ok ==> byte_len(r->Ok_0@) <= r->Ok_0.spec_capacity(),
    {
        let cap: usize = vec_capacity(&bytes);
        match core::str::from_utf8(bytes.as_slice()) {
            Ok(s) => {
                proof {
                    vstd::utf8::decode_utf8_encode_utf8(bytes@);
                    lemma_encode_utf8_injective(s@, decode_utf8(bytes@));
                }
                let content = owned_with_room(s, cap);
                Ok(SsoString { repr: Repr::Heap { content, cap } })
            },
            Err(e) => Err(e),
        }
    }

    /// Same as [`SsoString::from_utf8`] for bytes already known to be
    /// well-formed UTF-8; well-formedness is a precondition, discharged
    /// statically, and no error can come back.
    pub fn from_utf8_unchecked(bytes: Vec<u8>) -> (r: Self)
        requires
            valid_utf8(bytes@),
        ensures
            encode_utf8(r@) == bytes@,
            r@ == decode_utf8(bytes@),
            r.spec_is_heap(),
            byte_len(r@) <= r.spec_capacity(),
    {
        let cap: usize = vec_capacity(&bytes);
        match core::str::from_utf8(bytes.as_slice()) {
            Ok(s) => {
                proof {
                    vstd::utf8::decode_utf8_encode_utf8(bytes@);
                    lemma_encode_utf8_injective(s@, decode_utf8(bytes@));
                }
                let content = owned_with_room(s, cap);
                SsoString { repr: Repr::Heap { content, cap } }
            },
            Err(_) => unreached(),
        }
    }

    /// An empty heap-backed string with room for `cap` bytes.
    pub fn with_capacity(cap: usize) -> (r: Self)
        ensures
            r@ == Seq::<char>::empty(),
            r.spec_is_heap(),
            r.spec_capacity() == cap,
    {
        let mut content = String::new();
        string_reserve(&mut content, cap);
        SsoString { repr: Repr::Heap { content, cap } }
    }

    /// The content length in bytes.
    pub fn len(&self) -> (n: usize)
        ensures
            n == byte_len(self@),
            n <= self.spec_capacity(),
    {
        proof {
            use_type_invariant(self);
        }
        str_byte_len(self.as_str())
    }

    /// The capacity in bytes; the length never exceeds it. An inline value's
    /// capacity is the fixed inline constant; a static value's capacity is
    /// exactly its length, with no headroom.
    pub fn capacity(&self) -> (c: usize)
        ensures
            c == self.spec_capacity(),
            byte_len(self@) <= c,
            self.spec_is_inlined() ==> c == INLINE_CAPACITY,
            self.spec_is_static() ==> c == byte_len(self@),
    {
        proof {
            use_type_invariant(self);
        }
        match &self.repr {
            Repr::Inline { .. } => INLINE_CAPACITY,
            Repr::Static { shared } => str_byte_len(shared),
            Repr::Heap { cap, .. } => *cap,
        }
    }

    /// Whether the content is held inline.
    pub fn is_inlined(&self) -> (b: bool)
        ensures
            b == self.spec_is_inlined(),
    {
        match &self.repr {
            Repr::Inline { .. } => true,
            _ => false,
        }
    }

    /// Whether the content is shared from permanently valid memory.
    pub fn is_static(&self) -> (b: bool)
        ensures
            b == self.spec_is_static(),
    {
        match &self.repr {
            Repr::Static { .. } => true,
            _ => false,
        }
    }

    /// Whether the value has no content.
    pub fn is_empty(&self) -> (b: bool)
        ensures
            b == (self@.len() == 0),
    {
        proof {
            lemma_byte_len_zero(self@);
        }
        self.len() == 0
    }

    /// A borrowed view of the content; never copies.
    pub fn as_str(&self) -> (r: &str)
        ensures
            r@ == self@,
    {
        match &self.repr {
            Repr::Inline { content } => content.as_str(),
            Repr::Static { shared } => *shared,
            Repr::Heap { content, .. } => content.as_str(),
        }
    }

    /// The content bytes, borrowed.
    pub fn as_bytes(&self) -> (r: &[u8])
        ensures
            r@ == encode_utf8(self@),
    {
        self.as_str().as_bytes()
    }

    /// Appends `s` in place, following the state transition rules: see
    /// [`push_post`]. Appending an empty string changes no observable field.
    /// The bound in the precondition is the machine limit on the grown
    /// capacity; every pair of strings that fits in memory satisfies it.
    pub fn push_str(&mut self, s: &str)
        requires
            grown_capacity(byte_len(old(self)@) + byte_len(s@)) <= usize::MAX,
        ensures
            push_post(*old(self), s@, *final(self)),
    {
        proof {
            use_type_invariant(&*self);
        }
        if s.is_empty() {
            proof {
                lemma_byte_len_zero(s@);
                assert(self@ =~= old(self)@ + s@);
            }
            return;
        }
        let s_len: usize = str_byte_len(s);
        let mut taken = Repr::Inline { content: String::new() };
        mem::swap(&mut taken, &mut self.repr);
        match taken {
            Repr::Inline { content } => {
                let curr_len: usize = str_byte_len(content.as_str());
                let new_len: usize = curr_len + s_len;
                proof {
                    lemma_byte_len_concat(content@, s@);
                }
                let mut c = content;
                if new_len <= INLINE_CAPACITY {
                    c.append(s);
                    self.repr = Repr::Inline { content: c };
                } else {
                    let new_cap: usize = new_len + new_len / 2;
                    string_reserve(&mut c, new_cap - curr_len);
                    c.append(s);
                    self.repr = Repr::Heap { content: c, cap: new_cap };
                }
            },
            Repr::Static { shared } => {
                let curr_len: usize = str_byte_len(shared);
                let new_len: usize = curr_len + s_len;
                proof {
                    lemma_byte_len_concat(shared@, s@);
                }
                let mut c: String = shared.to_owned();
                if new_len <= INLINE_CAPACITY {
                    c.append(s);
                    self.repr = Repr::Inline { content: c };
                } else {
                    let new_cap: usize = new_len + new_len / 2;
                    string_reserve(&mut c, new_cap - curr_len);
                    c.append(s);
                    self.repr = Repr::Heap { content: c, cap: new_cap };
                }
            },
            Repr::Heap { content, cap } => {
                let curr_len: usize = str_byte_len(content.as_str());
                let new_len: usize = curr_len + s_len;
                proof {
                    lemma_byte_len_concat(content@, s@);
                }
                let mut c = content;
                if new_len <= cap {
                    c.append(s);
                    self.repr = Repr::Heap { content: c, cap };
                } else {
                    let new_cap: usize = new_len + new_len / 2;
                    string_reserve(&mut c, new_cap - curr_len);
                    c.append(s);
                    self.repr = Repr::Heap { content: c, cap: new_cap };
                }
            },
        }
    }

    /// Appends one character in place, by the same transition rules as
    /// [`SsoString::push_str`]: see [`push_post`]. A character encodes to at
    /// most four bytes, so the machine-limit bound only needs that much
    /// headroom.
    pub fn push(&mut self, c: char)
        requires
            grown_capacity(byte_len(old(self)@) + 4) <= usize::MAX,
        ensures
            push_post(*old(self), seq![c], *final(self)),
    {
        let encoded = char_to_string(c);
        proof {
            lemma_byte_len_single(c);
            lemma_byte_len_concat(self@, seq![c]);
        }
        self.push_str(encoded.as_str());
    }

    /// Guarantees at least `capacity + additional` bytes of room, in a heap
    /// buffer. A value that is not yet heap-backed relocates to the heap even
    /// when `additional` is zero; a heap value grows its buffer by exactly
    /// `additional`.
    pub fn reserve(&mut self, additional: usize)
        requires
            old(self).spec_capacity() + additional <= usize::MAX,
        ensures
            final(self)@ == old(self)@,
            final(self).spec_is_heap(),
            final(self).spec_capacity() == old(self).spec_capacity() + additional,
    {
        proof {
            use_type_invariant(&*self);
        }
        let curr_capacity: usize = self.capacity();
        let new_capacity: usize = curr_capacity + additional;
        let relocated = self.force_heap_relocation(new_capacity);
        if !relocated {
            let mut taken = Repr::Inline { content: String::new() };
            mem::swap(&mut taken, &mut self.repr);
            match taken {
                Repr::Heap { content, cap: _ } => {
                    let mut c = content;
                    let n: usize = str_byte_len(c.as_str());
                    string_reserve(&mut c, new_capacity - n);
                    self.repr = Repr::Heap { content: c, cap: new_capacity };
                },
                _ => unreached(),
            }
        }
    }

    /// Moves a value that is not yet heap-backed into a fresh heap buffer of
    /// `capacity` bytes, keeping the content; does nothing to a value that
    /// already owns its buffer.
    fn force_heap_relocation(&mut self, capacity: usize) -> (relocated: bool)
        requires
            byte_len(old(self)@) <= capacity,
        ensures
            relocated == !old(self).spec_is_heap(),
            !relocated ==> *final(self) == *old(self),
            relocated ==> final(self)@ == old(self)@,
            relocated ==> final(self).spec_is_heap(),
            relocated ==> final(self).spec_capacity() == capacity,
    {
        proof {
            use_type_invariant(&*self);
        }
        let already_heap = match &self.repr {
            Repr::Inline { .. } => false,
            Repr::Static { .. } => false,
            Repr::Heap { .. } => true,
        };
        if already_heap {
            return false;
        }
        let mut taken = Repr::Inline { content: String::new() };
        mem::swap(&mut taken, &mut self.repr);
        match taken {
            Repr::Inline { content } => {
                let mut c = content;
                let n: usize = str_byte_len(c.as_str());
                string_reserve(&mut c, capacity - n);
                self.repr = Repr::Heap { content: c, cap: capacity };
            },
            Repr::Static { shared } => {
                let c = owned_with_room(shared, capacity);
                self.repr = Repr::Heap { content: c, cap: capacity };
            },
            Repr::Heap { .. } => unreached(),
        }
        true
    }

    /// Appends `s` with a caller-asserted state tag, performing only the
    /// branch of the append that matches the tag: see [`push_assume_post`].
    /// The assertion is a precondition here, so a call in any other state is
    /// ruled out statically rather than being undefined behavior. The tag is
    /// the integer form of a [`SsosPrecond`]; the reserved all-ASCII tag is
    /// not accepted.
    pub fn push_str_assume<const PRECOND: u32>(&mut self, s: &str)
        requires
            PRECOND <= 4,
            (PRECOND == 0 || PRECOND == 1) ==> old(self).spec_is_inlined(),
            PRECOND == 1 ==> byte_len(old(self)@) + byte_len(s@) <= INLINE_CAPACITY,
            PRECOND == 2 ==> old(self).spec_is_static(),
            (PRECOND == 3 || PRECOND == 4) ==> old(self).spec_is_heap(),
            PRECOND == 4 ==> byte_len(old(self)@) + byte_len(s@) <= old(self).spec_capacity(),
            grown_capacity(byte_len(old(self)@) + byte_len(s@)) <= usize::MAX,
        ensures
            push_assume_post(PRECOND, *old(self), s@, *final(self)),
    {
        proof {
            use_type_invariant(&*self);
        }
        if s.is_empty() {
            proof {
                lemma_byte_len_zero(s@);
                assert(self@ =~= old(self)@ + s@);
            }
            return;
        }
        let s_len: usize = str_byte_len(s);
        let assumption = SsosPrecond::from(PRECOND);
        let mut taken = Repr::Inline { content: String::new() };
        mem::swap(&mut taken, &mut self.repr);
        match assumption {
            SsosPrecond::Inline => match taken {
                Repr::Inline { content } => {
                    let curr_len: usize = str_byte_len(content.as_str());
                    let new_len: usize = curr_len + s_len;
                    proof {
                        lemma_byte_len_concat(content@, s@);
                    }
                    let mut c = content;
                    if new_len > INLINE_CAPACITY {
                        let new_cap: usize = new_len + new_len / 2;
                        string_reserve(&mut c, new_cap - curr_len);
                        c.append(s);
                        self.repr = Repr::Heap { content: c, cap: new_cap };
                    } else {
                        c.append(s);
                        self.repr = Repr::Inline { content: c };
                    }
                },
                _ => unreached(),
            },
            SsosPrecond::InlineAssumeCapacity => match taken {
                Repr::Inline { content } => {
                    proof {
                        lemma_byte_len_concat(content@, s@);
                    }
                    let mut c = content;
                    c.append(s);
                    self.repr = Repr::Inline { content: c };
                },
                _ => unreached(),
            },
            SsosPrecond::Static => match taken {
                Repr::Static { shared } => {
                    let curr_len: usize = str_byte_len(shared);
                    let new_len: usize = curr_len + s_len;
                    proof {
                        lemma_byte_len_concat(shared@, s@);
                    }
                    let mut c: String = shared.to_owned();
                    if new_len <= INLINE_CAPACITY {
                        c.append(s);
                        self.repr = Repr::Inline { content: c };
                    } else {
                        let new_cap: usize = new_len + new_len / 2;
                        string_reserve(&mut c, new_cap - curr_len);
                        c.append(s);
                        self.repr = Repr::Heap { content: c, cap: new_cap };
                    }
                },
                _ => unreached(),
            },
            SsosPrecond::Heap => match taken {
                Repr::Heap { content, cap } => {
                    let curr_len: usize = str_byte_len(content.as_str());
                    let new_len: usize = curr_len + s_len;
                    proof {
                        lemma_byte_len_concat(content@, s@);
                    }
                    let mut c = content;
                    if new_len > cap {
                        let new_cap: usize = new_len + new_len / 2;
                        string_reserve(&mut c, new_cap - curr_len);
                        c.append(s);
                        self.repr = Repr::Heap { content: c, cap: new_cap };
                    } else {
                        c.append(s);
                        self.repr = Repr::Heap { content: c, cap };
                    }
                },
                _ => unreached(),
            },
            SsosPrecond::HeapAssumeCapacity => match taken {
                Repr::Heap { content, cap } => {
                    proof {
                        lemma_byte_len_concat(content@, s@);
                    }
                    let mut c = content;
                    c.append(s);
                    self.repr = Repr::Heap { content: c, cap };
                },
                _ => unreached(),
            },
            SsosPrecond::Ascii => unreached(),
        }
    }

    /// A borrowed view of the content, reached through a caller-asserted
    /// state tag; only the accessor for the asserted state runs. As with the
    /// tagged append, the assertion is a precondition, and the reserved
    /// all-ASCII tag is not accepted.
    pub fn as_str_assume<const PRECOND: u32>(&self) -> (r: &str)
        requires
            PRECOND <= 4,
            (PRECOND == 0 || PRECOND == 1) ==> self.spec_is_inlined(),
            PRECOND == 2 ==> self.spec_is_static(),
            (PRECOND == 3 || PRECOND == 4) ==> self.spec_is_heap(),
        ensures
            r@ == self@,
    {
        let assumption = SsosPrecond::from(PRECOND);
        match assumption {
            SsosPrecond::Inline | SsosPrecond::InlineAssumeCapacity => match &self.repr {
                Repr::Inline { content } => content.as_str(),
                _ => unreached(),
            },
            SsosPrecond::Static => match &self.repr {
                Repr::Static { shared } => *shared,
                _ => unreached(),
            },
            SsosPrecond::Heap | SsosPrecond::HeapAssumeCapacity => match &self.repr {
                Repr::Heap { content, .. } => content.as_str(),
                _ => unreached(),
            },
            SsosPrecond::Ascii => unreached(),
        }
    }

    /// The content copied into a plain owned string.
    pub fn to_string(&self) -> (r: String)
        ensures
            r@ == self@,
    {
        self.as_str().to_owned()
    }
}

impl Default for SsoString {
    /// Same as [`SsoString::new`]: empty and inline.
    fn default() -> (r: Self)
        ensures
            r@ == Seq::<char>::empty(),
            r.spec_is_inlined(),
            !r.spec_is_static(),
    {
        SsoString::new()
    }
}

impl SsoStringable for String {
    open spec fn content(&self) -> Seq<char> {
        self@
    }

    fn to_sso_string(&self) -> (r: SsoString) {
        SsoString::from(self.as_str())
    }
}

impl SsoStringable for &str {
    open spec fn content(&self) -> Seq<char> {
        (*self)@
    }

    fn to_sso_string(&self) -> (r: SsoString) {
        SsoString::from(*self)
    }
}

impl Clone for SsoString {
    /// A copy with the same content, state and capacity. An inline or
    /// static value is copied bitwise — a static clone keeps sharing the
    /// same external memory until either copy is mutated — while a heap
    /// value gets an independent buffer of the same capacity.
    fn clone(&self) -> (r: Self)
        ensures
            r@ == self@,
            r.spec_is_inlined() == self.spec_is_inlined(),
            r.spec_is_static() == self.spec_is_static(),
            r.spec_capacity() == self.spec_capacity(),
    {
        proof {
            use_type_invariant(self);
        }
        match &self.repr {
            Repr::Inline { content } => SsoString {
                repr: Repr::Inline { content: content.clone() },
            },
            Repr::Static { shared } => SsoString { repr: Repr::Static { shared: *shared } },
            Repr::Heap { content, cap } => {
                let mut c = content.clone();
                let n: usize = str_byte_len(c.as_str());
                string_reserve(&mut c, *cap - n);
                SsoString { repr: Repr::Heap { content: c, cap: *cap } }
            },
        }
    }
}

impl core::hash::Hash for SsoString {
    /// Relies on `Hasher::write`: feeds exactly the content bytes to the
    /// hasher, so the hash depends on content alone, never on the
    /// representation state.
    #[verifier::external_body]
    fn hash<H: core::hash::Hasher>(&self, state: &mut H) {
        state.write(self.as_bytes());
    }
}

/// The error type [`SsoString::from_utf8`] reports.
#[verifier::external_type_specification]
#[verifier::external_body]
pub struct ExUtf8Error(core::str::Utf8Error);

/// Relies on `core::str::from_utf8`: it returns `Ok` exactly on well-formed
/// UTF-8 input, with a string slice viewing the same bytes.
pub assume_specification[ core::str::from_utf8 ](v: &[u8]) -> (r: Result<&str, core::str::Utf8Error>)
    ensures
        r is Ok <==> valid_utf8(v@),
        r is Ok ==> r->Ok_0.spec_bytes() == v@,
;

/// Relies on `Vec::capacity`: a vector's capacity is at least its length.
#[verifier::external_body]
fn vec_capacity(v: &Vec<u8>) -> (c: usize)
    ensures
        v@.len() <= c,
{
    v.capacity()
}

/// Relies on `String::reserve`: the content is unchanged and the buffer's
/// capacity afterwards is at least `len + additional`. On allocation failure
/// it does not return, which this library's error design treats as fatal.
#[verifier::external_body]
fn string_reserve(s: &mut String, additional: usize)
    requires
        byte_len(old(s)@) + additional <= usize::MAX,
    ensures
        final(s)@ == old(s)@,
{
    s.reserve(additional);
}

/// Relies on `char::to_string`: the result is the one-character string.
#[verifier::external_body]
fn char_to_string(c: char) -> (r: String)
    ensures
        r@ == seq![c],
{
    c.to_string()
}

/// An owned copy of `s` in a buffer with room for `cap` bytes.
fn owned_with_room(s: &str, cap: usize) -> (r: String)
    requires
        byte_len(s@) <= cap,
    ensures
        r@ == s@,
{
    let mut content: String = s.to_owned();
    let n: usize = str_byte_len(content.as_str());
    string_reserve(&mut content, cap - n);
    content
}

} // verus!
