//! Tile conversions and meld-pattern codes of the sequence features.

use vstd::prelude::*;

verus! {

/// Size of the sparse-token vocabulary.
pub const SPARSE_VOCAB_SIZE: usize = 442;
/// The padding token of the sparse features.
pub const SPARSE_PAD: u16 = 441;
/// Longest sparse-token list a model accepts.
pub const MAX_SPARSE_LEN: usize = 25;
/// Progression tuple dimensions: (actor, type, moqie, liqi, from).
pub const PROG_DIMS: [u16; 5] = [5, 277, 3, 3, 5];
/// Longest progression a model accepts.
pub const MAX_PROG_LEN: usize = 512;
/// Padding tuple of the progression features.
pub const PROG_PAD: [u16; 5] = [4, 276, 2, 2, 4];
/// Candidate tuple dimensions: (type, moqie, liqi, from).
pub const CAND_DIMS: [u16; 4] = [280, 3, 3, 4];
/// Longest candidate list a model accepts.
pub const MAX_CAND_LEN: usize = 64;
/// Padding tuple of the candidate features.
pub const CAND_PAD: [u16; 4] = [279, 2, 2, 3];
/// Number of numeric features.
pub const NUM_NUMERIC: usize = 12;

// ── Tile conversions ─────────────────────────────────────────────────────────

/// The red fives: 5m (16), 5p (52) and 5s (88).
pub open spec fn is_red_five(t: u8) -> bool {
    t == 16 || t == 52 || t == 88
}

/// kan37 index of a tile type 0..33 (5m/5p/5s give the non-red index);
/// any other value gives 0.
pub open spec fn spec_tile_type_to_kan37(tile_type: u8) -> u8 {
    if tile_type <= 8 {
        (tile_type + 1) as u8
    } else if tile_type <= 17 {
        (tile_type + 2) as u8
    } else if tile_type <= 33 {
        (tile_type + 3) as u8
    } else {
        0
    }
}

/// kan37 index of a 136-tile id: red fives are 0, 10 and 20; the other tiles
/// go by their tile type (the type is the id over 4, truncated to a byte).
pub open spec fn spec_tile_id_to_kan37(tile_id: u32) -> u8 {
    if tile_id == 16 {
        0
    } else if tile_id == 52 {
        10
    } else if tile_id == 88 {
        20
    } else {
        spec_tile_type_to_kan37((tile_id / 4) as u8)
    }
}

/// Convert a 136-tile ID to kan37 (37 tiles, red fives distinct).
///
/// Layout: 0=red5m, 1-9=1m-9m, 10=red5p, 11-19=1p-9p,
///         20=red5s, 21-29=1s-9s, 30-36=E/S/W/N/P/F/C
pub fn tile_id_to_kan37(tile_id: u32) -> (r: u8)
    ensures
        r == spec_tile_id_to_kan37(tile_id),
        r < 37,
{
    if tile_id == 16 {
        return 0;
    }
    if tile_id == 52 {
        return 10;
    }
    if tile_id == 88 {
        return 20;
    }
    let tile_type = (tile_id / 4) as u8;
    tile_type_to_kan37(tile_type)
}

/// Convert a tile type (0-33, no red distinction) to kan37.
/// For 5m/5p/5s this returns the non-red version; other values give 0.
pub fn tile_type_to_kan37(tile_type: u8) -> (r: u8)
    ensures
        r == spec_tile_type_to_kan37(tile_type),
        r < 37,
{
    if tile_type <= 8 {
        tile_type + 1
    } else if tile_type <= 17 {
        tile_type + 2
    } else if tile_type <= 33 {
        tile_type + 3
    } else {
        0
    }
}

/// Convert a tile type (0-33) to kan34 (identity).
pub fn tile_type_to_kan34(tile_type: u8) -> (r: u8)
    ensures
        r == tile_type,
{
    tile_type
}

// ── Meld pattern encoding ────────────────────────────────────────────────────

/// Smallest value of `acc` and the elements of `s`.
pub open spec fn fold_min(acc: u8, s: Seq<u8>) -> u8
    decreases s.len(),
{
    if s.len() == 0 {
        acc
    } else {
        fold_min(if s[0] < acc { s[0] } else { acc }, s.drop_first())
    }
}

/// Whether a chi starting at suit-relative rank `s` (0-based) holds the five.
pub open spec fn chi_start_has_five(s: int) -> bool {
    2 <= s <= 4
}

/// Per-suit offset of the chi patterns starting at rank `ss`: sequences that
/// hold the five take 6 slots, the others 3.
pub open spec fn chi_offset(ss: int) -> int
    decreases ss,
{
    if ss <= 0 {
        0
    } else {
        chi_offset(ss - 1) + if chi_start_has_five(ss - 1) { 6int } else { 3int }
    }
}

/// Whether one of the tiles of a chi (the called one or the consumed ones) is a red five.
pub open spec fn chi_has_red(consumed: Seq<u8>, called: u8) -> bool {
    is_red_five(called) || exists|i: int| 0 <= i < consumed.len() && is_red_five(consumed[i])
}

/// The chi code: suit * 30, plus the offset of the lowest tile type of all three
/// tiles within its suit, plus the position of the called tile (3 more when the
/// sequence holds the five and a red five takes part).
pub open spec fn spec_encode_chi(consumed: Seq<u8>, called: u8) -> int {
    let first_type = fold_min(called, consumed) / 4;
    let suit = first_type / 9;
    let seq_start = first_type - suit * 9;
    let call_pos = called / 4 - first_type;
    let sub = if chi_start_has_five(seq_start) && chi_has_red(consumed, called) {
        3 + call_pos
    } else {
        call_pos
    };
    suit * 30 + chi_offset(seq_start) + sub
}

proof fn lemma_fold_min(acc: u8, s: Seq<u8>)
    ensures
        fold_min(acc, s) <= acc,
        forall|i: int| 0 <= i < s.len() ==> fold_min(acc, s) <= s[i],
    decreases s.len(),
{
    if s.len() > 0 {
        let a2 = if s[0] < acc { s[0] } else { acc };
        lemma_fold_min(a2, s.drop_first());
        assert forall|i: int| 0 <= i < s.len() implies fold_min(acc, s) <= s[i] by {
            if i > 0 {
                assert(s[i] == s.drop_first()[i - 1]);
            }
        }
    }
}

proof fn lemma_chi_offset_bound(ss: int)
    requires
        0 <= ss,
    ensures
        3 * ss <= chi_offset(ss) <= 3 * ss + 9,
        ss <= 2 ==> chi_offset(ss) == 3 * ss,
        2 <= ss <= 5 ==> chi_offset(ss) == 6 * ss - 6,
        ss >= 5 ==> chi_offset(ss) == 3 * ss + 9,
    decreases ss,
{
    if ss > 0 {
        lemma_chi_offset_bound(ss - 1);
    }
}

/// Encode a chi (sequence) call into 0-89.
///
/// 90 patterns = 3 suits × 30 per suit.
/// For each suit the 30 slots are indexed by the lowest tile type in the
/// sequence (relative to suit start, 0-6) and a sub-index that encodes
/// which tile was called and whether a red five is involved.
///
/// `consumed` = tile IDs of the tiles from hand.
/// `called_tile` = tile ID claimed from discard.
pub fn encode_chi(consumed: &[u8], called_tile: u8) -> (r: u16)
    ensures
        r == spec_encode_chi(consumed@, called_tile),
        r < 400,
{
    // Lowest tile of all three.
    let mut min_tile = called_tile;
    let mut has_red = called_tile == 16 || called_tile == 52 || called_tile == 88;
    let mut i: usize = 0;
    assert(consumed@.skip(0) =~= consumed@);
    while i < consumed.len()
        invariant
            0 <= i <= consumed@.len(),
            fold_min(called_tile, consumed@) == fold_min(min_tile, consumed@.skip(i as int)),
            has_red == (is_red_five(called_tile) || exists|j: int|
                0 <= j < i && is_red_five(consumed@[j])),
        decreases consumed@.len() - i,
    {
        let t = consumed[i];
        assert(consumed@.skip(i as int).drop_first() =~= consumed@.skip(i + 1));
        if t < min_tile {
            min_tile = t;
        }
        if t == 16 || t == 52 || t == 88 {
            has_red = true;
        }
        i = i + 1;
    }
    assert(consumed@.skip(i as int).len() == 0);
    proof {
        lemma_fold_min(called_tile, consumed@);
    }
    let first_type = min_tile / 4;
    let suit = first_type / 9;
    let suit_base = suit * 9;
    let seq_start = first_type - suit_base;
    let called_type = called_tile / 4;
    let call_pos = called_type - suit_base - seq_start;

    let involves_five = 2 <= seq_start && seq_start <= 4;
    let suit_offset = (suit as u16) * 30;

    let mut offset: u16 = 0;
    let mut s: u8 = 0;
    while s < seq_start
        invariant
            0 <= s <= seq_start,
            seq_start <= 8,
            offset == chi_offset(s as int),
        decreases seq_start - s,
    {
        proof {
            lemma_chi_offset_bound(s as int);
        }
        let seq_has_five = 2 <= s && s <= 4;
        offset = offset + if seq_has_five { 6 } else { 3 };
        s = s + 1;
    }
    proof {
        lemma_chi_offset_bound(seq_start as int);
    }

    let sub_idx = if involves_five && has_red {
        3 + call_pos
    } else {
        call_pos
    };

    suit_offset + offset + sub_idx as u16
}

/// The pon code: honours are 33 + (type - 27); within a suit, ranks below the five
/// keep their rank, the five takes 4 plus a variant (2 red called, 1 red in hand,
/// 0 none), ranks above the five add 2; each suit shifts by 11.
pub open spec fn spec_encode_pon(consumed: Seq<u8>, called: u8) -> int {
    let called_type = called / 4;
    let suit = called_type / 9;
    if suit == 3 {
        33 + (called_type - 27)
    } else {
        let rank = called_type - suit * 9;
        let suit_offset = suit * 11;
        if rank == 4 {
            let sub = if is_red_five(called) {
                2int
            } else if exists|i: int| 0 <= i < consumed.len() && is_red_five(consumed[i]) {
                1int
            } else {
                0int
            };
            suit_offset + 4 + sub
        } else if rank < 4 {
            suit_offset + rank
        } else {
            suit_offset + rank + 2
        }
    }
}

/// Encode a pon (triplet) call into 0-39.
///
/// 40 patterns = 3 suits × 11 per suit + 7 honors.
/// Per suit: 8 non-five tiles (1 pattern each)
///   + 3 five-variants (normal, red-in-hand, red-called) = 11.
/// Honors: 7 × 1 = 7.
pub fn encode_pon(consumed: &[u8], called_tile: u8) -> (r: u16)
    ensures
        r == spec_encode_pon(consumed@, called_tile),
        r < 100,
{
    let called_type = called_tile / 4;
    let suit = called_type / 9;

    if suit == 3 {
        let honor_idx = called_type - 27;
        return 33 + honor_idx as u16;
    }
    let suit_base = suit * 9;
    let rank = called_type - suit_base;
    let suit_offset = (suit as u16) * 11;

    if rank == 4 {
        let called_is_red = called_tile == 16 || called_tile == 52 || called_tile == 88;
        let mut consumed_has_red = false;
        let mut i: usize = 0;
        while i < consumed.len()
            invariant
                0 <= i <= consumed@.len(),
                consumed_has_red == exists|j: int| 0 <= j < i && is_red_five(consumed@[j]),
            decreases consumed@.len() - i,
        {
            let t = consumed[i];
            if t == 16 || t == 52 || t == 88 {
                consumed_has_red = true;
            }
            i = i + 1;
        }
        let sub_idx: u16 = if called_is_red {
            2
        } else if consumed_has_red {
            1
        } else {
            0
        };
        suit_offset + 4 + sub_idx
    } else {
        let idx = if rank < 4 {
            rank as u16
        } else {
            (rank as u16) + 2
        };
        suit_offset + idx
    }
}


/// Rust's remainder by 4 on an `i8` (the sign follows the dividend).
pub open spec fn trunc_rem4(x: int) -> int {
    if x >= 0 {
        x % 4
    } else {
        -((-x) % 4)
    }
}

/// Relative seat of `target` seen from `actor`: `(target - actor + 3) % 4` on
/// the seats read as `i8`. The subtraction and addition wrap in `i8` (as in a
/// release build) for seats out of the 0..3 range; the result is cast back to `u8`.
pub open spec fn spec_relative_from(actor: u8, target: u8) -> u8 {
    let d = ((target as i8) as int - (actor as i8) as int + 3) as i8;
    trunc_rem4(d as int) as u8
}

/// Relative seat: (target - actor + n_players - 1) % n_players
/// For 4P: 0=shimocha(right), 1=toimen(across), 2=kamicha(left)
pub fn relative_from(actor: u8, target: u8) -> (r: u8)
    ensures
        r == spec_relative_from(actor, target),
        actor < 4 && target < 4 ==> r == (target - actor + 3) % 4,
{
    let wide: i16 = (target as i8) as i16 - (actor as i8) as i16 + 3;
    let d: i8 = wide as i8;
    let rem: i8 = match d.checked_rem(4) {
        Some(x) => x,
        None => 0,
    };
    rem as u8
}


// ── Laws ─────────────────────────────────────────────────────────────────────

/// The kan37 layout: every 136-tile id maps into 0..36, and two ids share an
/// index exactly when they have the same tile type and are both red fives or
/// both not.
pub proof fn lemma_kan37_layout(t1: u32, t2: u32)
    requires
        t1 < 136,
        t2 < 136,
    ensures
        spec_tile_id_to_kan37(t1) < 37,
        (spec_tile_id_to_kan37(t1) == spec_tile_id_to_kan37(t2)) <==> (t1 / 4 == t2 / 4 && (t1
            == 16 || t1 == 52 || t1 == 88) == (t2 == 16 || t2 == 52 || t2 == 88)),
{
}

/// Three tiles form a chi: the called tile and two consumed tiles are below
/// 136 and their tile types are three consecutive ranks of one suit.
pub open spec fn is_valid_chi(consumed: Seq<u8>, called: u8) -> bool {
    let t0 = called / 4;
    let lo = chi_low_type(consumed, called);
    &&& consumed.len() == 2
    &&& called < 136 && consumed[0] < 136 && consumed[1] < 136
    &&& lo < 27 && lo % 9 <= 6
    &&& t0 != consumed[0] / 4 && t0 != consumed[1] / 4 && consumed[0] / 4 != consumed[1] / 4
    &&& lo <= t0 <= lo + 2
    &&& lo <= consumed[0] / 4 <= lo + 2
    &&& lo <= consumed[1] / 4 <= lo + 2
}

/// The lowest tile type among the called tile and two consumed tiles.
pub open spec fn chi_low_type(consumed: Seq<u8>, called: u8) -> int {
    let a = called / 4;
    let b = consumed[0] / 4;
    let c = consumed[1] / 4;
    if a <= b && a <= c {
        a as int
    } else if b <= c {
        b as int
    } else {
        c as int
    }
}

proof fn lemma_chi_first_type(consumed: Seq<u8>, called: u8)
    requires
        consumed.len() == 2,
    ensures
        fold_min(called, consumed) / 4 == chi_low_type(consumed, called),
{
    let m1 = if consumed[0] < called { consumed[0] } else { called };
    let m2 = if consumed[1] < m1 { consumed[1] } else { m1 };
    assert(consumed.drop_first().drop_first().len() == 0);
    assert(fold_min(m1, consumed.drop_first()) == fold_min(m2, consumed.drop_first().drop_first()));
    assert(fold_min(called, consumed) == m2);
}

/// Chi codes of real chis lie in 0..89, as the feature vocabulary assumes.
pub proof fn lemma_chi_code_in_range(consumed: Seq<u8>, called: u8)
    requires
        is_valid_chi(consumed, called),
    ensures
        0 <= spec_encode_chi(consumed, called) < 90,
{
    lemma_chi_first_type(consumed, called);
    let lo = chi_low_type(consumed, called);
    lemma_chi_offset_bound(lo % 9);
}

/// Two real chis share a code only when they start at the same tile type,
/// call the same tile type, and agree on whether a red five takes part in a
/// sequence through the five.
pub proof fn lemma_chi_codes_distinct(c1: Seq<u8>, k1: u8, c2: Seq<u8>, k2: u8)
    requires
        is_valid_chi(c1, k1),
        is_valid_chi(c2, k2),
        spec_encode_chi(c1, k1) == spec_encode_chi(c2, k2),
    ensures
        chi_low_type(c1, k1) == chi_low_type(c2, k2),
        k1 / 4 == k2 / 4,
        (chi_start_has_five(chi_low_type(c1, k1) % 9) && chi_has_red(c1, k1)) == (
        chi_start_has_five(chi_low_type(c2, k2) % 9) && chi_has_red(c2, k2)),
{
    lemma_chi_first_type(c1, k1);
    lemma_chi_first_type(c2, k2);
    let lo1 = chi_low_type(c1, k1);
    let lo2 = chi_low_type(c2, k2);
    lemma_chi_offset_bound(lo1 % 9);
    lemma_chi_offset_bound(lo2 % 9);
    assert(lo1 / 9 == lo2 / 9);
    assert(lo1 % 9 == lo2 % 9);
}

/// A pon's variant: for a five, 2 when the red five was called, 1 when it is
/// in hand, 0 otherwise; every other tile has the one variant 0.
pub open spec fn pon_variant(consumed: Seq<u8>, called: u8) -> int {
    if (called / 4) % 9 == 4 && called / 4 < 27 {
        if is_red_five(called) {
            2
        } else if exists|i: int| 0 <= i < consumed.len() && is_red_five(consumed[i]) {
            1
        } else {
            0
        }
    } else {
        0
    }
}

/// Pon codes lie in 0..39 and tell the called tile type and variant apart.
pub proof fn lemma_pon_codes(c1: Seq<u8>, k1: u8, c2: Seq<u8>, k2: u8)
    requires
        k1 < 136,
        k2 < 136,
    ensures
        0 <= spec_encode_pon(c1, k1) < 40,
        spec_encode_pon(c1, k1) == spec_encode_pon(c2, k2) ==> k1 / 4 == k2 / 4 && pon_variant(
            c1,
            k1,
        ) == pon_variant(c2, k2),
{
}

/// Bounds of the chi code on any tiles below 136 (real chis or not).
pub proof fn lemma_chi_code_bounded(consumed: Seq<u8>, called: u8)
    requires
        called < 136,
        forall|i: int| 0 <= i < consumed.len() ==> consumed[i] < 136,
    ensures
        0 <= spec_encode_chi(consumed, called) <= 159,
{
    lemma_fold_min(called, consumed);
    let ft = fold_min(called, consumed) / 4;
    lemma_chi_offset_bound(ft - (ft / 9) * 9);
}

/// The same tile with a red five read as the plain five of its suit (the next
/// id, of the same type).
pub open spec fn plain_five(t: u8) -> u8 {
    if t == 16 || t == 52 || t == 88 {
        (t + 1) as u8
    } else {
        t
    }
}

/// The chi code does not depend on the order of the two consumed tiles, and
/// red fives count exactly as follows: for a sequence through the five (its
/// lowest rank 3, 4 or 5) the code is 3 above the code of the same tiles with
/// red fives read as plain ones when the called tile or either consumed tile
/// is a red five (16, 52, 88), and equal to it otherwise; for every other
/// sequence red fives make no difference.
pub proof fn lemma_chi_red_variant(a: u8, b: u8, c: u8)
    requires
        a < 136,
        b < 136,
        c < 136,
    ensures
        spec_encode_chi(seq![a, b], c) == spec_encode_chi(seq![b, a], c),
        ({
            let lo = chi_low_type(seq![a, b], c);
            let red = a == 16 || a == 52 || a == 88 || b == 16 || b == 52 || b == 88 || c == 16
                || c == 52 || c == 88;
            spec_encode_chi(seq![a, b], c) == spec_encode_chi(
                seq![plain_five(a), plain_five(b)],
                plain_five(c),
            ) + if 2 <= lo % 9 <= 4 && red {
                3int
            } else {
                0int
            }
        }),
{
    let s1 = seq![a, b];
    let s2 = seq![b, a];
    let s3 = seq![plain_five(a), plain_five(b)];
    lemma_chi_first_type(s1, c);
    lemma_chi_first_type(s2, c);
    lemma_chi_first_type(s3, plain_five(c));
    assert(s1[0] == a && s1[1] == b);
    assert(s2[0] == b && s2[1] == a);
    assert(s3[0] == plain_five(a) && s3[1] == plain_five(b));
    assert(chi_has_red(s1, c) == (is_red_five(c) || is_red_five(a) || is_red_five(b))) by {
        if is_red_five(a) {
            assert(is_red_five(s1[0]));
        }
        if is_red_five(b) {
            assert(is_red_five(s1[1]));
        }
    }
    assert(chi_has_red(s2, c) == (is_red_five(c) || is_red_five(a) || is_red_five(b))) by {
        if is_red_five(b) {
            assert(is_red_five(s2[0]));
        }
        if is_red_five(a) {
            assert(is_red_five(s2[1]));
        }
    }
    assert(!chi_has_red(s3, plain_five(c))) by {
        assert(!is_red_five(s3[0]));
        assert(!is_red_five(s3[1]));
    }
    assert(plain_five(a) / 4 == a / 4);
    assert(plain_five(b) / 4 == b / 4);
    assert(plain_five(c) / 4 == c / 4);
}

/// The pon code does not depend on the order of the two consumed tiles, and
/// red fives count exactly as follows: for a pon of fives of a suit the code is
/// 2 above the code of the same tiles with red fives read as plain ones when
/// the called tile is the red five, 1 above it when a consumed tile is, and
/// equal to it otherwise; for every other pon red fives make no difference.
pub proof fn lemma_pon_red_variant(a: u8, b: u8, c: u8)
    requires
        a < 136,
        b < 136,
        c < 136,
    ensures
        spec_encode_pon(seq![a, b], c) == spec_encode_pon(seq![b, a], c),
        ({
            let five = c / 4 < 27 && (c / 4) % 9 == 4;
            let extra = if !five {
                0int
            } else if c == 16 || c == 52 || c == 88 {
                2int
            } else if a == 16 || a == 52 || a == 88 || b == 16 || b == 52 || b == 88 {
                1int
            } else {
                0int
            };
            spec_encode_pon(seq![a, b], c) == spec_encode_pon(
                seq![plain_five(a), plain_five(b)],
                plain_five(c),
            ) + extra
        }),
{
    let s1 = seq![a, b];
    let s2 = seq![b, a];
    let s3 = seq![plain_five(a), plain_five(b)];
    assert(s1[0] == a && s1[1] == b);
    assert(s2[0] == b && s2[1] == a);
    assert(s3[0] == plain_five(a) && s3[1] == plain_five(b));
    let r1 = exists|i: int| 0 <= i < s1.len() && is_red_five(s1[i]);
    let r2 = exists|i: int| 0 <= i < s2.len() && is_red_five(s2[i]);
    let r3 = exists|i: int| 0 <= i < s3.len() && is_red_five(s3[i]);
    assert(r1 == (is_red_five(a) || is_red_five(b))) by {
        if is_red_five(a) {
            assert(is_red_five(s1[0]));
        }
        if is_red_five(b) {
            assert(is_red_five(s1[1]));
        }
    }
    assert(r2 == (is_red_five(a) || is_red_five(b))) by {
        if is_red_five(b) {
            assert(is_red_five(s2[0]));
        }
        if is_red_five(a) {
            assert(is_red_five(s2[1]));
        }
    }
    assert(!r3) by {
        assert(!is_red_five(s3[0]));
        assert(!is_red_five(s3[1]));
    }
    assert(plain_five(c) / 4 == c / 4);
}

/// Relative seats of four players: from a seat, each other seat has its own
/// relative position 0 (right), 1 (across) or 2 (left).
pub proof fn lemma_relative_seats(actor: u8, t1: u8, t2: u8)
    requires
        actor < 4,
        t1 < 4,
        t2 < 4,
        t1 != actor,
        t2 != actor,
    ensures
        spec_relative_from(actor, t1) < 3,
        spec_relative_from(actor, t1) == spec_relative_from(actor, t2) ==> t1 == t2,
        spec_relative_from(actor, ((actor + 1) % 4) as u8) == 0,
        spec_relative_from(actor, ((actor + 2) % 4) as u8) == 1,
        spec_relative_from(actor, ((actor + 3) % 4) as u8) == 2,
{
}

} // verus!
