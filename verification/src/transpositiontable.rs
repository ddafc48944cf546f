//! The shared transposition table: packed entries, the hash-to-index map,
//! the mate-score transform, and the probe and replacement rules.

use crate::chessmove::Move;
use crate::definitions::{CompactDepthStorage, Depth, INFINITY, MAX_PLY, MINIMUM_MATE_SCORE};
use crate::laws::{law_decode_inverts_encode, law_slot_index_in_range};
use std::sync::atomic::{AtomicU64, Ordering};
use vstd::prelude::*;

verus! {

/// What kind of bound an entry's score is on the true value of its position.
#[derive(Debug, Clone, Copy, PartialEq, Eq, Structural)]
pub enum HFlag {
    /// No bound: the mark of an entry that was never written.
    NoBound,
    /// The true value is at most the score (the search failed low).
    UpperBound,
    /// The true value is at least the score (the search failed high).
    LowerBound,
    /// The score is the true value.
    Exact,
}

impl HFlag {
    /// The number of the flag: the two bits that stand for it in a packed
    /// entry, and the bonus it earns its entry when entries compete for a
    /// slot.
    pub open spec fn bits(self) -> int {
        match self {
            HFlag::NoBound => 0,
            HFlag::UpperBound => 1,
            HFlag::LowerBound => 2,
            HFlag::Exact => 3,
        }
    }

    /// The flag whose number is `bits` modulo four.
    pub open spec fn of_bits(bits: int) -> HFlag {
        let low = bits % 4;
        if low == 0 {
            HFlag::NoBound
        } else if low == 1 {
            HFlag::UpperBound
        } else if low == 2 {
            HFlag::LowerBound
        } else {
            HFlag::Exact
        }
    }
}

impl From<HFlag> for u8 {
    fn from(hflag: HFlag) -> (bits: u8) {
        match hflag {
            HFlag::NoBound => 0,
            HFlag::UpperBound => 1,
            HFlag::LowerBound => 2,
            HFlag::Exact => 3,
        }
    }
}

impl vstd::std_specs::convert::FromSpecImpl<HFlag> for u8 {
    open spec fn obeys_from_spec() -> bool {
        true
    }

    open spec fn from_spec(hflag: HFlag) -> u8 {
        hflag.bits() as u8
    }
}

impl From<HFlag> for i32 {
    fn from(hflag: HFlag) -> (bits: i32) {
        match hflag {
            HFlag::NoBound => 0,
            HFlag::UpperBound => 1,
            HFlag::LowerBound => 2,
            HFlag::Exact => 3,
        }
    }
}

impl vstd::std_specs::convert::FromSpecImpl<HFlag> for i32 {
    open spec fn obeys_from_spec() -> bool {
        true
    }

    open spec fn from_spec(hflag: HFlag) -> i32 {
        hflag.bits() as i32
    }
}

/// One record of the table. Packed, it fills a single 64-bit word, so that
/// one atomic load or store moves all of it.
#[derive(Debug, Clone, Copy, PartialEq, Eq, Structural)]
pub struct TTEntry {
    /// The low sixteen bits of the position's hash.
    pub key: u16,
    /// The best move found, or the null token.
    pub m: Move,
    /// The score, with mate distances counted from the root.
    pub score: i16,
    /// The remaining depth at which the entry was written.
    pub depth: CompactDepthStorage,
    /// The kind of bound that the score is.
    pub flag: HFlag,
}

/// The sixteen bits that hold a score in a packed entry, as a number:
/// the score in two's complement.
pub open spec fn score_to_bits(score: i16) -> int {
    if score >= 0 {
        score as int
    } else {
        score + 0x1_0000
    }
}

/// The score that sixteen bits hold, read in two's complement.
pub open spec fn score_of_bits(bits: int) -> i16 {
    if bits < 0x8000 {
        bits as i16
    } else {
        (bits - 0x1_0000) as i16
    }
}

impl TTEntry {
    /// The empty record, which packs to the all-zero word.
    pub open spec fn spec_null() -> TTEntry {
        TTEntry {
            key: 0,
            m: Move { data: 0 },
            score: 0,
            depth: CompactDepthStorage { plies: 0 },
            flag: HFlag::NoBound,
        }
    }

    /// The word that packs this entry. From the low end: sixteen bits of
    /// key, sixteen of move, sixteen of score, eight of depth, and eight
    /// for the flag, of which only the low two are ever set.
    pub open spec fn encode(self) -> u64 {
        (self.key as int + self.m.data as int * 0x1_0000 + score_to_bits(self.score)
            * 0x1_0000_0000 + self.depth.plies as int * 0x1_0000_0000_0000 + self.flag.bits()
            * 0x100_0000_0000_0000) as u64
    }

    /// The entry that a word unpacks to. Every word unpacks to some entry:
    /// of the flag's byte all but the low two bits are ignored.
    pub open spec fn decode(word: u64) -> TTEntry {
        TTEntry {
            key: (word % 0x1_0000) as u16,
            m: Move { data: ((word / 0x1_0000) % 0x1_0000) as u16 },
            score: score_of_bits(((word / 0x1_0000_0000) % 0x1_0000) as int),
            depth: CompactDepthStorage { plies: ((word / 0x1_0000_0000_0000) % 0x100) as u8 },
            flag: HFlag::of_bits((word / 0x100_0000_0000_0000) as int),
        }
    }

    /// The empty record.
    #[verifier::when_used_as_spec(spec_null)]
    pub fn null() -> (entry: TTEntry)
        ensures
            entry == TTEntry::spec_null(),
    {
        TTEntry {
            key: 0,
            m: Move::null(),
            score: 0,
            depth: CompactDepthStorage::null(),
            flag: HFlag::NoBound,
        }
    }
}

impl From<u64> for TTEntry {
    /// Unpacks a word.
    fn from(data: u64) -> (entry: TTEntry) {
        let key_bits: u64 = data & 0xffff;
        let move_bits: u64 = (data >> 16) & 0xffff;
        let score_bits: u64 = (data >> 32) & 0xffff;
        let depth_bits: u64 = (data >> 48) & 0xff;
        let flag_bits: u64 = (data >> 56) & 0b11;
        proof {
            assert(data & 0xffff == data % 0x1_0000) by (bit_vector);
            assert((data >> 16) & 0xffff == (data / 0x1_0000) % 0x1_0000) by (bit_vector);
            assert((data >> 32) & 0xffff == (data / 0x1_0000_0000) % 0x1_0000) by (bit_vector);
            assert((data >> 48) & 0xff == (data / 0x1_0000_0000_0000) % 0x100) by (bit_vector);
            assert((data >> 56) & 0b11 == (data / 0x100_0000_0000_0000) % 4) by (bit_vector);
        }
        let score: i16 = if score_bits < 0x8000 {
            score_bits as i16
        } else {
            (score_bits as i32 - 0x1_0000) as i16
        };
        let flag = if flag_bits == 0 {
            HFlag::NoBound
        } else if flag_bits == 1 {
            HFlag::UpperBound
        } else if flag_bits == 2 {
            HFlag::LowerBound
        } else {
            HFlag::Exact
        };
        TTEntry {
            key: key_bits as u16,
            m: Move::new(move_bits as u16),
            score,
            depth: CompactDepthStorage::from_byte(depth_bits as u8),
            flag,
        }
    }
}

impl vstd::std_specs::convert::FromSpecImpl<u64> for TTEntry {
    open spec fn obeys_from_spec() -> bool {
        true
    }

    open spec fn from_spec(data: u64) -> TTEntry {
        TTEntry::decode(data)
    }
}

impl From<TTEntry> for u64 {
    /// Packs an entry.
    fn from(entry: TTEntry) -> (data: u64) {
        let key_bits: u64 = entry.key as u64;
        let move_bits: u64 = entry.m.data as u64;
        let score_bits: u64 = if entry.score >= 0 {
            entry.score as u64
        } else {
            (entry.score as i32 + 0x1_0000) as u64
        };
        let depth_bits: u64 = entry.depth.to_byte() as u64;
        let flag_bits: u64 = u8::from(entry.flag) as u64;
        proof {
            assert(key_bits | (move_bits << 16) | (score_bits << 32) | (depth_bits << 48) | (
            flag_bits << 56) == key_bits + move_bits * 0x1_0000 + score_bits * 0x1_0000_0000
                + depth_bits * 0x1_0000_0000_0000 + flag_bits * 0x100_0000_0000_0000)
                by (bit_vector)
                requires
                    key_bits < 0x1_0000,
                    move_bits < 0x1_0000,
                    score_bits < 0x1_0000,
                    depth_bits < 0x100,
                    flag_bits < 4,
            ;
        }
        key_bits | (move_bits << 16) | (score_bits << 32) | (depth_bits << 48) | (flag_bits << 56)
    }
}

impl vstd::std_specs::convert::FromSpecImpl<TTEntry> for u64 {
    open spec fn obeys_from_spec() -> bool {
        true
    }

    open spec fn from_spec(entry: TTEntry) -> u64 {
        entry.encode()
    }
}

/// What a probe found in the entry that a position's hash leads to.
#[derive(Debug, Clone, Copy, PartialEq, Eq)]
pub struct TTHit {
    /// The best move that the entry records.
    pub tt_move: Move,
    /// The remaining depth at which the entry was written.
    pub tt_depth: Depth,
    /// The kind of bound that the entry's score is.
    pub tt_bound: HFlag,
    /// The score as stored, mate distances still counted from the root.
    pub tt_value: i32,
}

/// The answer of a probe.
#[derive(Debug, Clone, Copy, PartialEq, Eq)]
pub enum ProbeResult {
    /// The node need not be searched: this is its value, or a bound on it
    /// that already decides the node.
    Cutoff(i32),
    /// The entry cannot decide the node, but its move and bound can guide
    /// the search.
    Hit(TTHit),
    /// The table knows nothing of the position.
    Nothing,
}

/// A score as the table stores it. A mate score counts the plies from the
/// node to the mate; what is stored counts them from the root, `ply` plies
/// further away. Other scores are stored as they are.
pub open spec fn normalised_score(score: int, ply: int) -> int {
    if score > MINIMUM_MATE_SCORE {
        score + ply
    } else if score < -MINIMUM_MATE_SCORE {
        score - ply
    } else {
        score
    }
}

/// A stored score as a node `ply` plies from the root reads it: a mate
/// distance counted from the root becomes one counted from the node.
pub open spec fn reconstructed_score(score: int, ply: int) -> int {
    if score > MINIMUM_MATE_SCORE {
        score - ply
    } else if score < -MINIMUM_MATE_SCORE {
        score + ply
    } else {
        score
    }
}

/// Turns the score of a node `ply` plies from the root into the form in
/// which the table stores it.
pub fn normalise_mate_score(score: i32, ply: usize) -> (stored: i32)
    requires
        score > MINIMUM_MATE_SCORE ==> score + ply <= i32::MAX,
        score < -MINIMUM_MATE_SCORE ==> score - ply >= i32::MIN,
    ensures
        stored == normalised_score(score as int, ply as int),
{
    if score > MINIMUM_MATE_SCORE {
        score + ply as i32
    } else if score < -MINIMUM_MATE_SCORE {
        score - ply as i32
    } else {
        score
    }
}

/// Turns a stored score into the score that a node `ply` plies from the
/// root sees.
pub fn reconstruct_mate_score(score: i32, ply: usize) -> (seen: i32)
    requires
        score > MINIMUM_MATE_SCORE || score < -MINIMUM_MATE_SCORE ==> ply <= i32::MAX,
    ensures
        seen == reconstructed_score(score as int, ply as int),
{
    if score > MINIMUM_MATE_SCORE {
        score - ply as i32
    } else if score < -MINIMUM_MATE_SCORE {
        score + ply as i32
    } else {
        score
    }
}

/// The sixteen bits of a position's hash that an entry keeps: the low ones.
pub open spec fn key_fragment(key: u64) -> u16 {
    (key % 0x1_0000) as u16
}

/// The slot that a hash leads to in a table of `len` slots: the high half
/// of the product of the two, so that the slot is chosen by the hash's
/// high bits and owes nothing to the fragment that the entry keeps.
pub open spec fn slot_index(key: u64, len: nat) -> nat {
    (key as nat * len) / 0x1_0000_0000_0000_0000
}

impl TTEntry {
    /// The hint that a probe hands out for this entry: its fields as they
    /// are stored.
    pub open spec fn hint(self) -> TTHit {
        TTHit {
            tt_move: self.m,
            tt_depth: Depth { plies: self.depth.plies as i32 },
            tt_bound: self.flag,
            tt_value: self.score as i32,
        }
    }

    /// What a probe answers when this is the entry it finds.
    ///
    /// An entry of another position answers nothing. One written at less
    /// than the depth asked for gives a hint. Otherwise the entry's bound
    /// decides, on the score as the probing node reads it: an exact score
    /// cuts off, an upper bound cuts off at `alpha` when it is no greater,
    /// a lower bound at `beta` when it is no less, and an entry without a
    /// bound answers nothing. At the root nothing cuts off: what would is
    /// handed out as a hint.
    pub open spec fn probe_outcome(
        self,
        root: bool,
        key: u64,
        ply: usize,
        alpha: i32,
        beta: i32,
        depth: Depth,
    ) -> ProbeResult {
        let seen = reconstructed_score(self.score as int, ply as int);
        if self.key != key_fragment(key) {
            ProbeResult::Nothing
        } else if self.depth.plies < depth.plies {
            ProbeResult::Hit(self.hint())
        } else {
            match self.flag {
                HFlag::NoBound => ProbeResult::Nothing,
                HFlag::UpperBound => if !root && seen <= alpha {
                    ProbeResult::Cutoff(alpha)
                } else {
                    ProbeResult::Hit(self.hint())
                },
                HFlag::LowerBound => if !root && seen >= beta {
                    ProbeResult::Cutoff(beta)
                } else {
                    ProbeResult::Hit(self.hint())
                },
                HFlag::Exact => if root {
                    ProbeResult::Hit(self.hint())
                } else {
                    ProbeResult::Cutoff(seen as i32)
                },
            }
        }
    }

    /// Whether an entry with the given hash, bound and depth takes the
    /// place of this one. It does at the root, when this entry belongs to
    /// another position, when it brings an exact score where this one has
    /// none, and when its quality is at least two thirds of this one's,
    /// quality being depth plus the bound's number.
    pub open spec fn yields_to(self, root: bool, key: u64, flag: HFlag, depth: Depth) -> bool {
        ||| root
        ||| self.key != key_fragment(key)
        ||| (flag == HFlag::Exact && self.flag != HFlag::Exact)
        ||| 3 * (depth.plies + flag.bits()) >= 2 * (self.depth.plies + self.flag.bits())
    }

    /// The entry that a store writes over this one. A null move is not
    /// written: the move that this entry holds is kept in its place.
    pub open spec fn successor(
        self,
        key: u64,
        ply: usize,
        best_move: Move,
        score: i32,
        flag: HFlag,
        depth: Depth,
    ) -> TTEntry {
        TTEntry {
            key: key_fragment(key),
            m: if best_move.is_null() {
                self.m
            } else {
                best_move
            },
            score: normalised_score(score as int, ply as int) as i16,
            depth: CompactDepthStorage { plies: depth.plies as u8 },
            flag,
        }
    }

    /// Answers a probe from this entry, the one found in the slot that
    /// `key` leads to.
    pub fn probe<const ROOT: bool>(
        self,
        key: u64,
        ply: usize,
        alpha: i32,
        beta: i32,
        depth: Depth,
    ) -> (result: ProbeResult)
        requires
            ply <= MAX_PLY,
        ensures
            result == self.probe_outcome(ROOT, key, ply, alpha, beta, depth),
    {
        if self.key != TranspositionTable::pack_key(key) {
            return ProbeResult::Nothing;
        }
        let m = self.m;
        let e_depth = self.depth.to_depth();
        let tt_value: i32 = self.score as i32;
        if e_depth.round() < depth.round() {
            return ProbeResult::Hit(
                TTHit { tt_move: m, tt_depth: e_depth, tt_bound: self.flag, tt_value },
            );
        }
        let score = reconstruct_mate_score(tt_value, ply);
        match self.flag {
            HFlag::NoBound => ProbeResult::Nothing,
            HFlag::UpperBound => {
                if !ROOT && score <= alpha {
                    ProbeResult::Cutoff(alpha)
                } else {
                    ProbeResult::Hit(
                        TTHit {
                            tt_move: m,
                            tt_depth: e_depth,
                            tt_bound: HFlag::UpperBound,
                            tt_value,
                        },
                    )
                }
            },
            HFlag::LowerBound => {
                if !ROOT && score >= beta {
                    ProbeResult::Cutoff(beta)
                } else {
                    ProbeResult::Hit(
                        TTHit {
                            tt_move: m,
                            tt_depth: e_depth,
                            tt_bound: HFlag::LowerBound,
                            tt_value,
                        },
                    )
                }
            },
            HFlag::Exact => {
                if ROOT {
                    ProbeResult::Hit(
                        TTHit { tt_move: m, tt_depth: e_depth, tt_bound: HFlag::Exact, tt_value },
                    )
                } else {
                    ProbeResult::Cutoff(score)
                }
            },
        }
    }

    /// Decides a store against this entry, the one found in the slot that
    /// `key` leads to: the entry to write in its place, or `None` where
    /// this entry stays.
    pub fn replacement<const ROOT: bool>(
        self,
        key: u64,
        ply: usize,
        best_move: Move,
        score: i32,
        flag: HFlag,
        depth: Depth,
    ) -> (write: Option<TTEntry>)
        requires
            ply <= MAX_PLY,
            depth.in_range(),
            -INFINITY <= score,
            normalised_score(score as int, ply as int) <= i16::MAX,
        ensures
            write == if self.yields_to(ROOT, key, flag, depth) {
                Some(self.successor(key, ply, best_move, score, flag, depth))
            } else {
                None
            },
    {
        let key = TranspositionTable::pack_key(key);
        let m = if best_move.is_null() {
            self.m
        } else {
            best_move
        };
        let score = normalise_mate_score(score, ply);
        let record_depth = self.depth.to_depth();
        let insert_flag_bonus = i32::from(flag);
        let record_flag_bonus = i32::from(self.flag);
        let insert_depth: i32 = depth.round() + insert_flag_bonus;
        let record_depth: i32 = record_depth.round() + record_flag_bonus;
        if ROOT || self.key != key || (flag == HFlag::Exact && self.flag != HFlag::Exact)
            || insert_depth * 3 >= record_depth * 2 {
            Some(
                TTEntry {
                    key,
                    m,
                    score: score as i16,
                    depth: CompactDepthStorage::try_from_depth(depth).unwrap(),
                    flag,
                },
            )
        } else {
            None
        }
    }
}

/// Whether a word is the packed form of an entry: whether, above the two
/// bits of its flag, no bit is set.
pub open spec fn is_packed(word: u64) -> bool {
    word < 0x400_0000_0000_0000
}

/// Whether a cell holding `cell` counts as occupied: whether the entry it
/// unpacks to has a key fragment other than zero.
pub open spec fn occupied(cell: u64) -> bool {
    TTEntry::decode(cell).key != 0
}

/// How many of the words in `cells` count as occupied.
pub open spec fn occupied_count(cells: Seq<u64>) -> nat
    decreases cells.len(),
{
    if cells.len() == 0 {
        0
    } else {
        occupied_count(cells.drop_last()) + if occupied(cells.last()) {
            1nat
        } else {
            0nat
        }
    }
}

/// What a cell holds once a store that found `cell` in it is done: the
/// packed successor where the entry found yields, else `cell` as it was.
pub open spec fn cell_after_store(
    cell: u64,
    root: bool,
    key: u64,
    ply: usize,
    best_move: Move,
    score: i32,
    flag: HFlag,
    depth: Depth,
) -> u64 {
    let existing = TTEntry::decode(cell);
    if existing.yields_to(root, key, flag, depth) {
        existing.successor(key, ply, best_move, score, flag, depth).encode()
    } else {
        cell
    }
}

/// What a probe answers when it finds `cell` in the slot that `key` leads
/// to.
pub open spec fn probe_of_cell(
    cell: u64,
    root: bool,
    key: u64,
    ply: usize,
    alpha: i32,
    beta: i32,
    depth: Depth,
) -> ProbeResult {
    TTEntry::decode(cell).probe_outcome(root, key, ply, alpha, beta, depth)
}

/// The number of bytes that one cell takes.
pub const TT_ENTRY_SIZE: usize = 8;

/// The number of cells that `hashfull` samples.
pub const HASHFULL_SAMPLE: usize = 1000;

/// The table: a row of cells, each holding one packed entry, each read and
/// written whole. Any number of threads may probe and store at once, so
/// what a cell holds is known only at the moment it is loaded.
#[derive(Debug)]
pub struct TranspositionTable {
    table: Vec<AtomicU64>,
}

/// A shared handle on a table's cells, for the length of a search.
#[derive(Debug, Clone, Copy)]
pub struct TranspositionTableView<'a> {
    table: &'a [AtomicU64],
}

impl TranspositionTable {
    /// The cells of the table, in order. A cell here is a place, not what
    /// the place holds.
    pub closed spec fn cells(&self) -> Seq<AtomicU64> {
        self.table@
    }

    /// The number of cells.
    pub open spec fn spec_len(&self) -> nat {
        self.cells().len()
    }

    /// A table without cells.
    pub fn new() -> (table: Self)
        ensures
            table.spec_len() == 0,
    {
        Self { table: Vec::new() }
    }

    /// The number of cells.
    pub fn len(&self) -> (len: usize)
        ensures
            len == self.spec_len(),
    {
        self.table.len()
    }

    /// Gives the table as many cells as fit in `bytes` bytes, every one of
    /// them freshly made and holding the empty entry. Nothing of what the
    /// table held before is kept.
    ///
    /// No allocation can be larger than `isize::MAX` bytes.
    pub fn resize(&mut self, bytes: usize)
        requires
            bytes <= isize::MAX,
        ensures
            final(self).spec_len() == bytes / TT_ENTRY_SIZE,
    {
        let new_len = bytes / TT_ENTRY_SIZE;
        let mut table: Vec<AtomicU64> = Vec::with_capacity(new_len);
        while table.len() < new_len
            invariant
                table.len() <= new_len,
            decreases new_len - table.len(),
        {
            table.push(AtomicU64::new(u64::from(TTEntry::null())));
        }
        self.table = table;
    }

    /// Writes the empty entry into every cell, one cell at a time. Stores
    /// of other threads may land between and stay.
    pub fn clear(&self) {
        let view = self.view();
        let len = view.len();
        let mut index: usize = 0;
        while index < len
            invariant
                len == view.spec_len(),
            decreases len - index,
        {
            view.write(index, u64::from(TTEntry::null()));
            index += 1;
        }
    }

    /// The sixteen bits of a hash that an entry keeps.
    pub fn pack_key(key: u64) -> (fragment: u16)
        ensures
            fragment == key_fragment(key),
    {
        assert(key & 0xffff == key % 0x1_0000) by (bit_vector);
        (key & 0xffff) as u16
    }

    /// A handle on the cells of this table.
    pub fn view(&self) -> (view: TranspositionTableView<'_>)
        ensures
            view.cells() == self.cells(),
    {
        TranspositionTableView { table: self.table.as_slice() }
    }
}

impl<'a> TranspositionTableView<'a> {
    /// The cells that the handle reaches, in order.
    pub closed spec fn cells(&self) -> Seq<AtomicU64> {
        self.table@
    }

    /// The number of cells.
    pub open spec fn spec_len(&self) -> nat {
        self.cells().len()
    }

    /// The number of cells.
    pub fn len(&self) -> (len: usize)
        ensures
            len == self.spec_len(),
    {
        self.table.len()
    }

    /// Loads the word of one cell, in one piece. Other threads may have
    /// written the cell since anything was last known of it, so nothing
    /// is promised of the word.
    fn read(&self, index: usize) -> (word: u64)
        requires
            index < self.spec_len(),
    {
        self.table[index].load(Ordering::SeqCst)
    }

    /// Loads the word of one cell without ordering it against other
    /// accesses.
    fn read_relaxed(&self, index: usize) -> (word: u64)
        requires
            index < self.spec_len(),
    {
        self.table[index].load(Ordering::Relaxed)
    }

    /// Stores a word into one cell, in one piece. Only packed entries are
    /// ever written.
    fn write(&self, index: usize, word: u64)
        requires
            index < self.spec_len(),
            is_packed(word),
    {
        self.table[index].store(word, Ordering::SeqCst)
    }

    /// The slot that a hash leads to.
    pub fn wrap_key(&self, key: u64) -> (index: usize)
        ensures
            index == slot_index(key, self.spec_len()),
            self.spec_len() > 0 ==> index < self.spec_len(),
    {
        let key = key as u128;
        let len = self.table.len() as u128;
        proof {
            law_slot_index_in_range(key as u64, len as nat);
            assert(key * len <= 0xffff_ffff_ffff_ffff * 0xffff_ffff_ffff_ffff) by (nonlinear_arith)
                requires
                    0 <= key <= 0xffff_ffff_ffff_ffff,
                    0 <= len <= 0xffff_ffff_ffff_ffff,
            ;
        }
        let product: u128 = key * len;
        assert(product >> 64 == product / 0x1_0000_0000_0000_0000) by (bit_vector);
        (product >> 64) as usize
    }

    /// Records a search result for the position with hash `key`.
    ///
    /// The entry found in the position's slot is loaded, and
    /// `TTEntry::replacement` decides against it: where it yields, its
    /// successor is stored in the slot, else the slot is left alone. A slot
    /// that held `cell` and that no other thread writes meanwhile holds
    /// `cell_after_store(cell, ..)` afterwards. The cells being shared,
    /// nothing is promised here of what a later load will find.
    pub fn store<const ROOT: bool>(
        &self,
        key: u64,
        ply: usize,
        best_move: Move,
        score: i32,
        flag: HFlag,
        depth: Depth,
    )
        requires
            self.spec_len() > 0,
            ply <= MAX_PLY,
            depth.in_range(),
            -INFINITY <= score,
            normalised_score(score as int, ply as int) <= i16::MAX,
    {
        let index = self.wrap_key(key);
        let entry = TTEntry::from(self.read(index));
        match entry.replacement::<ROOT>(key, ply, best_move, score, flag, depth) {
            Some(write) => {
                proof {
                    law_decode_inverts_encode(write);
                }
                self.write(index, u64::from(write))
            },
            None => {},
        }
    }

    /// Looks up the position with hash `key`.
    ///
    /// The answer is that of `TTEntry::probe` on the entry loaded from the
    /// position's slot. Which word the load finds depends on the stores of
    /// every thread, so the answer is known to be that for some word, and
    /// never a cutoff at the root.
    pub fn probe<const ROOT: bool>(
        &self,
        key: u64,
        ply: usize,
        alpha: i32,
        beta: i32,
        depth: Depth,
    ) -> (result: ProbeResult)
        requires
            self.spec_len() > 0,
            ply <= MAX_PLY,
            depth.in_range(),
            alpha < beta,
        ensures
            exists|cell: u64|
                result == #[trigger] probe_of_cell(cell, ROOT, key, ply, alpha, beta, depth),
            ROOT ==> !(result is Cutoff),
    {
        let index = self.wrap_key(key);
        let cell = self.read(index);
        let entry = TTEntry::from(cell);
        let result = entry.probe::<ROOT>(key, ply, alpha, beta, depth);
        assert(result == probe_of_cell(cell, ROOT, key, ply, alpha, beta, depth));
        result
    }

    /// How full the table is, in cells out of a thousand: the number of
    /// occupied cells among the first thousand, each loaded once. The count
    /// is that of the words loaded, whatever they were.
    pub fn hashfull(&self) -> (count: usize)
        ensures
            count <= HASHFULL_SAMPLE,
            count <= self.spec_len(),
            exists|loaded: Seq<u64>|
                loaded.len() == vstd::math::min(self.spec_len() as int, HASHFULL_SAMPLE as int)
                    && count == #[trigger] occupied_count(loaded),
    {
        let len = self.table.len();
        let sample = if len < HASHFULL_SAMPLE {
            len
        } else {
            HASHFULL_SAMPLE
        };
        let ghost mut loaded: Seq<u64> = Seq::empty();
        let mut count: usize = 0;
        let mut index: usize = 0;
        while index < sample
            invariant
                sample <= self.spec_len(),
                index <= sample,
                count <= index,
                loaded.len() == index,
                count == occupied_count(loaded),
            decreases sample - index,
        {
            let cell = self.read_relaxed(index);
            if TTEntry::from(cell).key != 0 {
                count += 1;
            }
            proof {
                assert(loaded.push(cell).drop_last() =~= loaded);
                loaded = loaded.push(cell);
            }
            index += 1;
        }
        count
    }
}

} // verus!
