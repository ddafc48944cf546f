//! Score and depth limits shared by the search and the table.

use vstd::prelude::*;

verus! {

/// The score that bounds every evaluation from above; its negation bounds
/// them from below.
pub const INFINITY: i32 = 32000;

/// Scores beyond this magnitude encode a distance to mate.
pub const MINIMUM_MATE_SCORE: i32 = 30000;

/// The deepest search horizon, in plies.
pub const MAX_DEPTH: i32 = 64;

/// The largest distance from the root at which a node is searched.
pub const MAX_PLY: usize = 64;

/// A remaining search horizon, in plies.
#[derive(Debug, Clone, Copy, PartialEq, Eq, Structural)]
pub struct Depth {
    pub plies: i32,
}

impl Depth {
    /// Whether the depth lies between zero and `MAX_DEPTH`, as every depth
    /// handed to the table must.
    pub open spec fn in_range(self) -> bool {
        0 <= self.plies <= MAX_DEPTH
    }

    /// The horizon `plies` away.
    pub fn new(plies: i32) -> (d: Depth)
        ensures
            d.plies == plies,
    {
        Depth { plies }
    }

    /// The number of plies to the horizon, negative once it is passed.
    pub fn round(self) -> (plies: i32)
        ensures
            plies == self.plies,
    {
        self.plies
    }

    /// The number of plies left before the horizon: zero once it is reached.
    pub fn ply_to_horizon(self) -> (plies: usize)
        ensures
            plies == if self.plies <= 0 { 0 } else { self.plies as int },
    {
        if self.plies <= 0 {
            0
        } else {
            self.plies as usize
        }
    }
}

/// A depth squeezed into the single byte that a table entry has for it.
#[derive(Debug, Clone, Copy, PartialEq, Eq, Structural)]
pub struct CompactDepthStorage {
    pub plies: u8,
}

impl CompactDepthStorage {
    /// The depth of an empty entry.
    pub fn null() -> (c: CompactDepthStorage)
        ensures
            c.plies == 0,
    {
        CompactDepthStorage { plies: 0 }
    }

    /// The stored byte.
    pub fn to_byte(self) -> (b: u8)
        ensures
            b == self.plies,
    {
        self.plies
    }

    /// The compact depth whose stored byte is `b`.
    pub fn from_byte(b: u8) -> (c: CompactDepthStorage)
        ensures
            c.plies == b,
    {
        CompactDepthStorage { plies: b }
    }

    /// Narrows a depth to a byte: `Some` exactly when it fits.
    pub fn try_from_depth(depth: Depth) -> (c: Option<CompactDepthStorage>)
        ensures
            c is Some <==> 0 <= depth.plies <= 255,
            c is Some ==> c->0.plies == depth.plies,
    {
        let plies: i32 = depth.round();
        if 0 <= plies && plies <= 255 {
            Some(CompactDepthStorage { plies: plies as u8 })
        } else {
            None
        }
    }

    /// Widens the stored byte back to a depth.
    pub fn to_depth(self) -> (d: Depth)
        ensures
            d.plies == self.plies,
    {
        Depth::new(self.plies as i32)
    }
}

} // verus!
