//! What holds of the codec, of the score transform, and of a store followed
//! by a probe.
//!
//! The table's cells are shared between threads, so the statements about
//! stores and probes speak of one cell: of the word that a store leaves in
//! it, given the word it found, and of what a probe answers when that is
//! the word it loads.

use crate::chessmove::Move;
use crate::definitions::{Depth, MAX_PLY};
use crate::transpositiontable::{
    cell_after_store, is_packed, key_fragment, normalised_score, occupied, occupied_count,
    probe_of_cell, reconstructed_score, score_of_bits, score_to_bits, slot_index, HFlag,
    ProbeResult, TTEntry, TTHit,
};
use vstd::prelude::*;

verus! {

/// The fields of a packed word, read off by division and remainder, are
/// the numbers that were packed.
proof fn lemma_fields_of_packed(key: u64, m: u64, score: u64, depth: u64, flag: u64, word: u64)
    by (bit_vector)
    requires
        key < 0x1_0000,
        m < 0x1_0000,
        score < 0x1_0000,
        depth < 0x100,
        flag < 4,
        word == key + m * 0x1_0000 + score * 0x1_0000_0000 + depth * 0x1_0000_0000_0000 + flag
            * 0x100_0000_0000_0000,
    ensures
        word % 0x1_0000 == key,
        (word / 0x1_0000) % 0x1_0000 == m,
        (word / 0x1_0000_0000) % 0x1_0000 == score,
        (word / 0x1_0000_0000_0000) % 0x100 == depth,
        word / 0x100_0000_0000_0000 == flag,
        word < 0x400_0000_0000_0000,
{
}

/// The fields of a word, packed again, give the word without its six high
/// bits.
proof fn lemma_packed_of_fields(word: u64)
    by (bit_vector)
    ensures
        word % 0x1_0000 + ((word / 0x1_0000) % 0x1_0000) * 0x1_0000 + ((word / 0x1_0000_0000)
            % 0x1_0000) * 0x1_0000_0000 + ((word / 0x1_0000_0000_0000) % 0x100)
            * 0x1_0000_0000_0000 + ((word / 0x100_0000_0000_0000) % 4) * 0x100_0000_0000_0000
            == word % 0x400_0000_0000_0000,
        word < 0x400_0000_0000_0000 ==> word % 0x400_0000_0000_0000 == word,
{
}

/// Packing loses nothing: every entry is what its packed word unpacks to,
/// and its packed word has no bit set above the two of its flag.
pub proof fn law_decode_inverts_encode(entry: TTEntry)
    ensures
        TTEntry::decode(entry.encode()) == entry,
        is_packed(entry.encode()),
{
    let key = entry.key as u64;
    let m = entry.m.data as u64;
    let score = score_to_bits(entry.score) as u64;
    let depth = entry.depth.plies as u64;
    let flag = entry.flag.bits() as u64;
    let sum = key + m * 0x1_0000 + score * 0x1_0000_0000 + depth * 0x1_0000_0000_0000 + flag
        * 0x100_0000_0000_0000;
    assert(sum < 0x400_0000_0000_0000);
    lemma_fields_of_packed(key, m, score, depth, flag, entry.encode());
}

/// Every word unpacks to an entry with one of the four flags, the one
/// numbered by the low two bits of the word's high byte. Unpacking drops
/// the six bits above them and nothing else: packed again, the entry gives
/// the word without them. So a word whose flag byte is one of the four
/// flags' numbers, as every packed word's is, comes back unchanged.
pub proof fn law_encode_inverts_decode(word: u64)
    ensures
        TTEntry::decode(word).flag.bits() == (word / 0x100_0000_0000_0000) % 4,
        TTEntry::decode(word).encode() == word % 0x400_0000_0000_0000,
        is_packed(word) ==> TTEntry::decode(word).encode() == word,
{
    lemma_packed_of_fields(word);
    let entry = TTEntry::decode(word);
    let score = ((word / 0x1_0000_0000) % 0x1_0000) as int;
    assert(score_to_bits(score_of_bits(score)) == score);
    let flag = (word / 0x100_0000_0000_0000) as int;
    assert(HFlag::of_bits(flag).bits() == flag % 4);
}

/// The empty entry and the all-zero word stand for each other.
pub proof fn law_null_is_zero()
    ensures
        TTEntry::spec_null().encode() == 0,
        TTEntry::decode(0) == TTEntry::spec_null(),
        !occupied(0),
{
}

/// A score stored at a node and read back at the same distance from the
/// root is the score that was stored.
pub proof fn law_mate_score_round_trip(score: int, ply: int)
    requires
        ply >= 0,
    ensures
        reconstructed_score(normalised_score(score, ply), ply) == score,
{
}

/// A hash leads to a slot of the table, whatever the hash, as soon as the
/// table has a slot. In a table without slots it leads to slot zero, which
/// is not there.
pub proof fn law_slot_index_in_range(key: u64, len: nat)
    ensures
        len >= 1 ==> 0 <= slot_index(key, len) < len,
        len == 0 ==> slot_index(key, len) == 0,
{
    let k = key as nat;
    if len >= 1 {
        assert(k * len < 0x1_0000_0000_0000_0000 * len) by (nonlinear_arith)
            requires
                k < 0x1_0000_0000_0000_0000,
                len >= 1,
        ;
        assert((k * len) / 0x1_0000_0000_0000_0000 < len) by (nonlinear_arith)
            requires
                k * len < 0x1_0000_0000_0000_0000 * len,
        ;
    } else {
        assert(k * len == 0) by (nonlinear_arith)
            requires
                len == 0,
        ;
    }
}

/// A store that takes effect is seen by a probe of the same position from
/// the same distance to the root and for no more depth: where the store
/// was of an exact score, the probe inside the tree cuts off with that very
/// score, whatever the window.
///
/// The store takes effect where the entry it finds yields. An entry of the
/// same position that is exact and much deeper does not yield, and the
/// probe then answers from that entry.
pub proof fn law_store_then_probe(
    cell: u64,
    root: bool,
    key: u64,
    ply: usize,
    best_move: Move,
    score: i32,
    depth: Depth,
    alpha: i32,
    beta: i32,
    probe_depth: Depth,
)
    requires
        ply <= MAX_PLY,
        depth.in_range(),
        i16::MIN <= normalised_score(score as int, ply as int) <= i16::MAX,
        probe_depth.plies <= depth.plies,
        TTEntry::decode(cell).yields_to(root, key, HFlag::Exact, depth),
    ensures
        probe_of_cell(
            cell_after_store(cell, root, key, ply, best_move, score, HFlag::Exact, depth),
            false,
            key,
            ply,
            alpha,
            beta,
            probe_depth,
        ) == ProbeResult::Cutoff(score),
{
    let existing = TTEntry::decode(cell);
    let written = existing.successor(key, ply, best_move, score, HFlag::Exact, depth);
    law_decode_inverts_encode(written);
    law_mate_score_round_trip(score as int, ply as int);
}

/// An entry stored at less depth than a probe asks for cannot cut off:
/// the probe hands out the entry as a hint, with the depth and bound that
/// were stored, the score in its stored form, and the move that was
/// stored, which is the move of the store unless that was null.
pub proof fn law_shallow_entry_hints(
    cell: u64,
    store_root: bool,
    probe_root: bool,
    key: u64,
    store_ply: usize,
    best_move: Move,
    score: i32,
    flag: HFlag,
    depth: Depth,
    probe_ply: usize,
    alpha: i32,
    beta: i32,
    probe_depth: Depth,
)
    requires
        depth.in_range(),
        i16::MIN <= normalised_score(score as int, store_ply as int) <= i16::MAX,
        depth.plies < probe_depth.plies,
        TTEntry::decode(cell).yields_to(store_root, key, flag, depth),
    ensures
        probe_of_cell(
            cell_after_store(cell, store_root, key, store_ply, best_move, score, flag, depth),
            probe_root,
            key,
            probe_ply,
            alpha,
            beta,
            probe_depth,
        ) == ProbeResult::Hit(
            TTHit {
                tt_move: if best_move.is_null() {
                    TTEntry::decode(cell).m
                } else {
                    best_move
                },
                tt_depth: depth,
                tt_bound: flag,
                tt_value: normalised_score(score as int, store_ply as int) as i32,
            },
        ),
{
    let existing = TTEntry::decode(cell);
    let written = existing.successor(key, store_ply, best_move, score, flag, depth);
    law_decode_inverts_encode(written);
}

/// An upper bound of the probed position, deep enough, cuts off at `alpha`
/// inside the tree when the score, as the probing node reads it, is no
/// greater than `alpha`; otherwise, and always at the root, it is handed
/// out as a hint.
pub proof fn law_upper_bound(
    entry: TTEntry,
    root: bool,
    key: u64,
    ply: usize,
    alpha: i32,
    beta: i32,
    depth: Depth,
)
    requires
        entry.key == key_fragment(key),
        entry.depth.plies >= depth.plies,
        entry.flag == HFlag::UpperBound,
    ensures
        entry.probe_outcome(root, key, ply, alpha, beta, depth) == if !root && reconstructed_score(
            entry.score as int,
            ply as int,
        ) <= alpha {
            ProbeResult::Cutoff(alpha)
        } else {
            ProbeResult::Hit(entry.hint())
        },
{
}

/// A lower bound of the probed position, deep enough, cuts off at `beta`
/// inside the tree when the score, as the probing node reads it, is no
/// less than `beta`; otherwise, and always at the root, it is handed out
/// as a hint.
pub proof fn law_lower_bound(
    entry: TTEntry,
    root: bool,
    key: u64,
    ply: usize,
    alpha: i32,
    beta: i32,
    depth: Depth,
)
    requires
        entry.key == key_fragment(key),
        entry.depth.plies >= depth.plies,
        entry.flag == HFlag::LowerBound,
    ensures
        entry.probe_outcome(root, key, ply, alpha, beta, depth) == if !root && reconstructed_score(
            entry.score as int,
            ply as int,
        ) >= beta {
            ProbeResult::Cutoff(beta)
        } else {
            ProbeResult::Hit(entry.hint())
        },
{
}

/// At the root no probe cuts off, whatever the cell holds.
pub proof fn law_root_never_cuts(
    cell: u64,
    key: u64,
    ply: usize,
    alpha: i32,
    beta: i32,
    depth: Depth,
)
    ensures
        !(probe_of_cell(cell, true, key, ply, alpha, beta, depth) is Cutoff),
{
}

/// An entry of another position always yields: whatever is stored over it
/// is written.
pub proof fn law_other_key_is_replaced(
    cell: u64,
    root: bool,
    key: u64,
    ply: usize,
    best_move: Move,
    score: i32,
    flag: HFlag,
    depth: Depth,
)
    requires
        TTEntry::decode(cell).key != key_fragment(key),
    ensures
        cell_after_store(cell, root, key, ply, best_move, score, flag, depth) == TTEntry::decode(
            cell,
        ).successor(key, ply, best_move, score, flag, depth).encode(),
{
}

/// An entry yields to one whose quality, depth plus the bound's number, is
/// at least two thirds of its own.
pub proof fn law_quality_band_replaces(
    cell: u64,
    root: bool,
    key: u64,
    ply: usize,
    best_move: Move,
    score: i32,
    flag: HFlag,
    depth: Depth,
)
    requires
        3 * (depth.plies + flag.bits()) >= 2 * (TTEntry::decode(cell).depth.plies
            + TTEntry::decode(cell).flag.bits()),
    ensures
        cell_after_store(cell, root, key, ply, best_move, score, flag, depth) == TTEntry::decode(
            cell,
        ).successor(key, ply, best_move, score, flag, depth).encode(),
{
}

/// Inside the tree an entry stays when what is stored is of the same
/// position, of less than two thirds of its quality, and does not bring an
/// exact score where the entry has none. (At the root every store is
/// written.)
pub proof fn law_quality_band_keeps(
    cell: u64,
    key: u64,
    ply: usize,
    best_move: Move,
    score: i32,
    flag: HFlag,
    depth: Depth,
)
    requires
        TTEntry::decode(cell).key == key_fragment(key),
        !(flag == HFlag::Exact && TTEntry::decode(cell).flag != HFlag::Exact),
        3 * (depth.plies + flag.bits()) < 2 * (TTEntry::decode(cell).depth.plies
            + TTEntry::decode(cell).flag.bits()),
    ensures
        cell_after_store(cell, false, key, ply, best_move, score, flag, depth) == cell,
{
}

/// A store without a move keeps the move that the slot held, whether or
/// not the rest of the entry is replaced.
pub proof fn law_null_move_inherits(
    cell: u64,
    root: bool,
    key: u64,
    ply: usize,
    best_move: Move,
    score: i32,
    flag: HFlag,
    depth: Depth,
)
    requires
        best_move.is_null(),
    ensures
        TTEntry::decode(
            cell_after_store(cell, root, key, ply, best_move, score, flag, depth),
        ).m == TTEntry::decode(cell).m,
{
    let existing = TTEntry::decode(cell);
    law_decode_inverts_encode(existing.successor(key, ply, best_move, score, flag, depth));
}

/// Among cells that all hold the empty entry, as after a clear that
/// nothing has written over, none counts as occupied.
pub proof fn law_cleared_cells_are_unoccupied(cells: Seq<u64>)
    requires
        forall|i: int| 0 <= i < cells.len() ==> cells[i] == TTEntry::spec_null().encode(),
    ensures
        occupied_count(cells) == 0,
    decreases cells.len(),
{
    law_null_is_zero();
    if cells.len() > 0 {
        law_cleared_cells_are_unoccupied(cells.drop_last());
    }
}

} // verus!
