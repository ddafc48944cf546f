use viridithas::chessmove::Move;
use viridithas::definitions::{
    CompactDepthStorage, Depth, INFINITY, MAX_DEPTH, MAX_PLY, MINIMUM_MATE_SCORE,
};
use viridithas::transpositiontable::{
    normalise_mate_score, reconstruct_mate_score, HFlag, TTEntry, TranspositionTable,
};

const FLAG_MASK: u64 = 0x03ff_ffff_ffff_ffff;

fn entry(key: u16, m: u16, score: i16, depth: u8, flag: HFlag) -> TTEntry {
    TTEntry {
        key,
        m: Move::new(m),
        score,
        depth: CompactDepthStorage::from_byte(depth),
        flag,
    }
}

fn all_flags() -> Vec<HFlag> {
    vec![HFlag::NoBound, HFlag::UpperBound, HFlag::LowerBound, HFlag::Exact]
}

#[test]
fn tt_entries_are_one_word() {
    assert_eq!(std::mem::size_of::<TTEntry>(), 8);
}

#[test]
fn packed_entry_is_one_word() {
    let word: u64 = entry(1, 2, 3, 4, HFlag::Exact).into();
    assert_eq!(std::mem::size_of_val(&word), 8);
}

#[test]
fn limits_have_their_values() {
    assert_eq!(INFINITY, 32000);
    assert_eq!(MINIMUM_MATE_SCORE, 30000);
    assert_eq!(MAX_DEPTH, 64);
    assert_eq!(MAX_PLY, 64);
    assert_eq!(Depth::new(MAX_DEPTH).ply_to_horizon(), MAX_PLY);
}

#[test]
fn null_entry_is_the_zero_word() {
    let null = TTEntry::null();
    assert_eq!(null, entry(0, 0, 0, 0, HFlag::NoBound));
    assert!(null.m.is_null());
    assert_eq!(u64::from(null), 0);
    assert_eq!(TTEntry::from(0u64), null);
}

#[test]
fn encode_puts_fields_in_order() {
    let e = entry(0xBEEF, 7, -50, 10, HFlag::UpperBound);
    assert_eq!(u64::from(e), 0x010A_FFCE_0007_BEEF);
    let e = entry(0x1234, 0xABCD, 0x7FFF, 0xFF, HFlag::Exact);
    assert_eq!(u64::from(e), 0x03FF_7FFF_ABCD_1234);
    let e = entry(0, 0, i16::MIN, 0, HFlag::LowerBound);
    assert_eq!(u64::from(e), 0x0200_8000_0000_0000);
    let e = entry(0, 0, -1, 0, HFlag::NoBound);
    assert_eq!(u64::from(e), 0x0000_FFFF_0000_0000);
}

#[test]
fn decode_reads_fields_in_order() {
    let e = TTEntry::from(0x010A_FFCE_0007_BEEFu64);
    assert_eq!(e.key, 0xBEEF);
    assert_eq!(e.m, Move::new(7));
    assert_eq!(e.score, -50);
    assert_eq!(e.depth.to_byte(), 10);
    assert_eq!(e.flag, HFlag::UpperBound);
}

#[test]
fn decode_inverts_encode() {
    let keys: [u16; 5] = [0, 1, 0xBEEF, 0x8000, 0xFFFF];
    let moves: [u16; 4] = [0, 1, 0x7FFF, 0xFFFF];
    let scores: [i16; 9] = [0, 1, -1, 42, -50, 30503, -30503, i16::MAX, i16::MIN];
    let depths: [u8; 5] = [0, 1, 64, 128, 255];
    for key in keys {
        for m in moves {
            for score in scores {
                for depth in depths {
                    for flag in all_flags() {
                        let e = entry(key, m, score, depth, flag);
                        let word = u64::from(e);
                        assert_eq!(TTEntry::from(word), e);
                        assert_eq!(word & !FLAG_MASK, 0);
                    }
                }
            }
        }
    }
}

#[test]
fn encode_inverts_decode_on_legal_words() {
    let mut word: u64 = 0x0123_4567_89AB_CDEF;
    for _ in 0..10_000 {
        word = word.wrapping_mul(6364136223846793005).wrapping_add(1442695040888963407);
        let legal = word & FLAG_MASK;
        assert_eq!(u64::from(TTEntry::from(legal)), legal);
        assert_eq!(u64::from(TTEntry::from(word)), legal);
    }
}

#[test]
fn decode_masks_the_flag_byte() {
    assert_eq!(TTEntry::from(u64::MAX).flag, HFlag::Exact);
    assert_eq!(TTEntry::from(0xFC00_0000_0000_0000u64).flag, HFlag::NoBound);
    assert_eq!(TTEntry::from(0xFD00_0000_0000_0000u64).flag, HFlag::UpperBound);
    assert_eq!(TTEntry::from(0x0600_0000_0000_0000u64).flag, HFlag::LowerBound);
    assert_eq!(TTEntry::from(0xFC00_0000_0000_0000u64), TTEntry::null());
    let e = TTEntry::from(u64::MAX);
    assert_eq!(e, entry(0xFFFF, 0xFFFF, -1, 0xFF, HFlag::Exact));
    assert_eq!(u64::from(e), FLAG_MASK);
}

#[test]
fn flags_have_their_numbers() {
    assert_eq!(u8::from(HFlag::NoBound), 0);
    assert_eq!(u8::from(HFlag::UpperBound), 1);
    assert_eq!(u8::from(HFlag::LowerBound), 2);
    assert_eq!(u8::from(HFlag::Exact), 3);
    assert_eq!(i32::from(HFlag::NoBound), 0);
    assert_eq!(i32::from(HFlag::UpperBound), 1);
    assert_eq!(i32::from(HFlag::LowerBound), 2);
    assert_eq!(i32::from(HFlag::Exact), 3);
}

#[test]
fn pack_key_keeps_the_low_bits() {
    assert_eq!(TranspositionTable::pack_key(0xDEAD_BEEF), 0xBEEF);
    assert_eq!(TranspositionTable::pack_key(0), 0);
    assert_eq!(TranspositionTable::pack_key(u64::MAX), 0xFFFF);
    assert_eq!(TranspositionTable::pack_key(0xFFFF_FFFF_FFFF_0000), 0);
    assert_eq!(TranspositionTable::pack_key(0x1_0001), 1);
}

#[test]
fn normalise_moves_mate_scores_to_the_root() {
    assert_eq!(normalise_mate_score(30500, 3), 30503);
    assert_eq!(normalise_mate_score(-30500, 3), -30503);
    assert_eq!(normalise_mate_score(100, 3), 100);
    assert_eq!(normalise_mate_score(-100, 3), -100);
    assert_eq!(normalise_mate_score(0, 64), 0);
    assert_eq!(normalise_mate_score(30000, 5), 30000);
    assert_eq!(normalise_mate_score(30001, 5), 30006);
    assert_eq!(normalise_mate_score(-30000, 5), -30000);
    assert_eq!(normalise_mate_score(-30001, 5), -30006);
    assert_eq!(normalise_mate_score(32000, 64), 32064);
    assert_eq!(normalise_mate_score(-32000, 64), -32064);
}

#[test]
fn reconstruct_moves_mate_scores_to_the_node() {
    assert_eq!(reconstruct_mate_score(30503, 7), 30496);
    assert_eq!(reconstruct_mate_score(-30503, 7), -30496);
    assert_eq!(reconstruct_mate_score(42, 7), 42);
    assert_eq!(reconstruct_mate_score(30000, 7), 30000);
    assert_eq!(reconstruct_mate_score(30001, 7), 29994);
    assert_eq!(reconstruct_mate_score(-30001, 7), -29994);
}

#[test]
fn mate_score_round_trip() {
    let mut score = -INFINITY;
    while score <= INFINITY {
        for ply in 0..=MAX_PLY {
            let stored = normalise_mate_score(score, ply);
            assert_eq!(reconstruct_mate_score(stored, ply), score);
        }
        score += 1;
    }
}

#[test]
fn depth_conversions() {
    assert_eq!(Depth::new(8).round(), 8);
    assert_eq!(Depth::new(8).ply_to_horizon(), 8);
    assert_eq!(Depth::new(0).ply_to_horizon(), 0);
    assert_eq!(Depth::new(-3).ply_to_horizon(), 0);
    assert_eq!(CompactDepthStorage::null().to_byte(), 0);
    assert_eq!(
        CompactDepthStorage::try_from_depth(Depth::new(64)),
        Some(CompactDepthStorage::from_byte(64))
    );
    assert_eq!(
        CompactDepthStorage::try_from_depth(Depth::new(255)),
        Some(CompactDepthStorage::from_byte(255))
    );
    assert_eq!(CompactDepthStorage::try_from_depth(Depth::new(256)), None);
    assert_eq!(CompactDepthStorage::try_from_depth(Depth::new(-1)), None);
    assert_eq!(CompactDepthStorage::from_byte(200).to_depth(), Depth::new(200));
}

#[test]
fn null_move_is_the_zero_token() {
    assert!(Move::null().is_null());
    assert!(Move::new(0).is_null());
    assert_eq!(Move::null(), Move::new(0));
    assert_eq!(Move::null().data, 0);
    assert!(!Move::new(1).is_null());
    assert!(!Move::new(0xFFFF).is_null());
    assert_eq!(Move::new(0x0A0B).data, 0x0A0B);
}
