//! Caller-asserted state tags for the fast-path operations.
//!
//! The tagged operations of [`crate::sso::SsoString`] take one of these tags
//! as a compile-time constant and perform only the branch of the general
//! operation that matches the asserted state. Here the assertion is a real
//! precondition: calling a tagged operation in any other state is ruled out
//! statically instead of being undefined behavior.

use vstd::prelude::*;

verus! {

/// Integer form of a [`SsosPrecond`], usable as a const generic argument.
pub type SsosPrecondType = u32;

/// The state a caller of a tagged operation asserts the string to be in.
#[derive(Debug, Clone, Copy)]
pub enum SsosPrecond {
    /// The value is inline; the operation may still spill to the heap.
    Inline,
    /// The value is inline and the appended content is known to fit inline.
    InlineAssumeCapacity,
    /// The value shares external, permanently valid memory.
    Static,
    /// The value owns a heap buffer; the operation may still grow it.
    Heap,
    /// The value owns a heap buffer with enough spare room for the append.
    HeapAssumeCapacity,
    /// Reserved for a future all-ASCII fast path; no operation accepts it.
    Ascii,
}

impl SsosPrecond {
    /// The tag named by an integer parameter.
    pub(crate) fn from(num: SsosPrecondType) -> (r: Self)
        requires
            num <= 5,
        ensures
            r.as_param() == num,
    {
        match num {
            0 => Self::Inline,
            1 => Self::InlineAssumeCapacity,
            2 => Self::Static,
            3 => Self::Heap,
            4 => Self::HeapAssumeCapacity,
            _ => Self::Ascii,
        }
    }

    /// The integer to pass as the const generic argument of a tagged
    /// operation in order to assert this state.
    pub fn into_param(&self) -> (r: SsosPrecondType)
        ensures
            r == self.as_param(),
            r <= 5,
    {
        match self {
            Self::Inline => 0,
            Self::InlineAssumeCapacity => 1,
            Self::Static => 2,
            Self::Heap => 3,
            Self::HeapAssumeCapacity => 4,
            Self::Ascii => 5,
        }
    }

    /// The integer each tag stands for.
    pub open spec fn as_param(&self) -> SsosPrecondType {
        match self {
            Self::Inline => 0,
            Self::InlineAssumeCapacity => 1,
            Self::Static => 2,
            Self::Heap => 3,
            Self::HeapAssumeCapacity => 4,
            Self::Ascii => 5,
        }
    }
}

} // verus!
