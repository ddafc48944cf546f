//! The move token carried by table entries.

use vstd::prelude::*;

verus! {

/// A move, packed into sixteen bits. The table never looks inside a move:
/// it only tells the null token from every other.
#[derive(Debug, Clone, Copy, PartialEq, Eq, Structural)]
pub struct Move {
    pub data: u16,
}

impl Move {
    /// Whether this is the null token, the one whose bits are all zero.
    pub open spec fn spec_is_null(self) -> bool {
        self.data == 0
    }

    /// Wraps a raw sixteen-bit token.
    pub fn new(data: u16) -> (m: Move)
        ensures
            m.data == data,
    {
        Move { data }
    }

    /// The token that stands for "no move".
    pub fn null() -> (m: Move)
        ensures
            m.data == 0,
            m.is_null(),
    {
        Move { data: 0 }
    }

    /// Whether this is the null token.
    #[verifier::when_used_as_spec(spec_is_null)]
    pub fn is_null(self) -> (b: bool)
        ensures
            b == self.spec_is_null(),
    {
        self.data == 0
    }
}

} // verus!
