//! Riichi declaration candidates.

use vstd::prelude::*;

use crate::types::{count_of, Hand};

verus! {

/// Tile types (id over 4) of some 136-tile ids.
pub open spec fn tile_types(s: Seq<u8>) -> Seq<u8> {
    s.map_values(|t: u8| t / 4)
}

/// `h` counts the tile types of `tiles` without the one at `i`.
pub open spec fn is_hand_without(h: Hand, tiles: Seq<u8>, i: int) -> bool {
    forall|k: int| 0 <= k < 34 ==> h.counts@[k] == count_of(tile_types(tiles).remove(i), k)
}

/// The tenpai test answers alike on hands with equal tile counts.
pub open spec fn tenpai_test_is_a_function<F: Fn(&Hand) -> bool>(is_tenpai: F) -> bool {
    forall|h1: Hand, h2: Hand, b1: bool, b2: bool|
        h1.counts@ == h2.counts@ && #[trigger] is_tenpai.ensures((&h1,), b1)
            && #[trigger] is_tenpai.ensures((&h2,), b2) ==> b1 == b2
}

/// `is_tenpai` may answer `b` on the hand of the tile types of `tiles` without the one at `i`.
pub open spec fn answered<F: Fn(&Hand) -> bool>(is_tenpai: F, tiles: Seq<u8>, i: int, b: bool) -> bool {
    exists|h: Hand| #[trigger] is_hand_without(h, tiles, i) && is_tenpai.ensures((&h,), b)
}

/// The tiles of `tiles` (widened to `u32`) whose flag in `keep` is set, in order.
pub open spec fn kept_tiles(tiles: Seq<u8>, keep: Seq<bool>) -> Seq<u32>
    decreases tiles.len(),
{
    if tiles.len() == 0 {
        seq![]
    } else {
        let prev = kept_tiles(tiles.drop_last(), keep);
        if keep[tiles.len() - 1] {
            prev.push(tiles.last() as u32)
        } else {
            prev
        }
    }
}

proof fn lemma_kept_tiles_prefix(tiles: Seq<u8>, keep: Seq<bool>, keep2: Seq<bool>, n: int)
    requires
        0 <= n <= tiles.len(),
        forall|j: int| 0 <= j < n ==> keep[j] == keep2[j],
    ensures
        kept_tiles(tiles.take(n), keep) == kept_tiles(tiles.take(n), keep2),
    decreases n,
{
    if n > 0 {
        assert(tiles.take(n).drop_last() =~= tiles.take(n - 1));
        lemma_kept_tiles_prefix(tiles, keep, keep2, n - 1);
    }
}

/// Tile types of `tiles` without the one at `i`.
fn types_without(tiles: &Vec<u8>, i: usize) -> (r: Vec<u8>)
    requires
        i < tiles@.len(),
    ensures
        r@ == tile_types(tiles@).remove(i as int),
{
    let ghost types = tile_types(tiles@);
    let mut r: Vec<u8> = Vec::new();
    let mut j: usize = 0;
    while j < tiles.len()
        invariant
            0 <= j <= tiles@.len(),
            i < tiles@.len(),
            types == tile_types(tiles@),
            j <= i ==> r@ == types.take(j as int),
            j > i ==> r@ == types.take(j as int).remove(i as int),
        decreases tiles@.len() - j,
    {
        if j != i {
            r.push(tiles[j] / 4);
        }
        proof {
            if j < i {
                assert(types.take(j + 1) =~= types.take(j as int).push(types[j as int]));
            } else if j == i {
                assert(types.take(j + 1).remove(i as int) =~= types.take(j as int));
            } else {
                assert(types.take(j + 1).remove(i as int) =~= types.take(j as int).remove(
                    i as int,
                ).push(types[j as int]));
            }
        }
        j = j + 1;
    }
    assert(types.take(j as int) =~= types);
    r
}

/// The tiles whose discard leaves a tenpai hand: for each tile, the hand of
/// the tile types of the other tiles goes to `is_tenpai`, and the tile (as
/// `u32`) is kept where the answer is `true`, in the order of `tiles_136`.
/// For each position, `keep` records what `is_tenpai` answered on that hand.
/// The tenpai test must answer alike on hands with equal tile counts; then two
/// tiles of one type are both kept or both dropped.
pub fn check_riichi_candidates<F: Fn(&Hand) -> bool>(tiles_136: Vec<u8>, is_tenpai: F) -> (r: Vec<
    u32,
>)
    requires
        forall|h: &Hand| is_tenpai.requires((h,)),
        forall|i: int, k: int|
            0 <= i < tiles_136@.len() && 0 <= k < 34 ==> count_of(
                tile_types(tiles_136@).remove(i),
                k,
            ) <= 255,
        tenpai_test_is_a_function(is_tenpai),
    ensures
        exists|keep: Seq<bool>|
            {
                &&& keep.len() == tiles_136@.len()
                &&& forall|i: int|
                    0 <= i < tiles_136@.len() ==> answered(is_tenpai, tiles_136@, i, #[trigger] keep[i])
                &&& r@ == kept_tiles(tiles_136@, keep)
                &&& forall|i: int, j: int|
                    0 <= i < tiles_136@.len() && 0 <= j < tiles_136@.len() && tiles_136@[i] / 4
                        == tiles_136@[j] / 4 ==> #[trigger] keep[i] == #[trigger] keep[j]
            },
{
    let mut candidates: Vec<u32> = Vec::new();
    let ghost mut keep: Seq<bool> = seq![];
    let mut i: usize = 0;
    while i < tiles_136.len()
        invariant
            0 <= i <= tiles_136@.len(),
            forall|h: &Hand| is_tenpai.requires((h,)),
            forall|i: int, k: int|
                0 <= i < tiles_136@.len() && 0 <= k < 34 ==> count_of(
                    tile_types(tiles_136@).remove(i),
                    k,
                ) <= 255,
            keep.len() == i,
            forall|j: int| 0 <= j < i ==> answered(is_tenpai, tiles_136@, j, #[trigger] keep[j]),
            candidates@ == kept_tiles(tiles_136@.take(i as int), keep),
        decreases tiles_136@.len() - i,
    {
        let rest = types_without(&tiles_136, i);
        let hand = Hand::new(Some(rest));
        let t = is_tenpai(&hand);
        let ghost old_keep = keep;
        let ghost hi = i as int;
        if t {
            candidates.push(tiles_136[i] as u32);
        }
        i = i + 1;
        proof {
            keep = keep.push(t);
            assert(is_hand_without(hand, tiles_136@, hi));
            lemma_kept_tiles_prefix(tiles_136@, old_keep, keep, hi);
            assert(tiles_136@.take(hi + 1).drop_last() =~= tiles_136@.take(hi));
            assert(answered(is_tenpai, tiles_136@, hi, t));
            assert forall|j: int| 0 <= j < i implies answered(
                is_tenpai,
                tiles_136@,
                j,
                #[trigger] keep[j],
            ) by {
                if j < hi {
                    assert(keep[j] == old_keep[j]);
                }
            }
        }
    }
    assert(tiles_136@.take(i as int) =~= tiles_136@);
    assert forall|i: int, j: int|
        0 <= i < tiles_136@.len() && 0 <= j < tiles_136@.len() && tiles_136@[i] / 4 == tiles_136@[j]
            / 4 implies #[trigger] keep[i] == #[trigger] keep[j] by {
        lemma_same_type_same_answer(is_tenpai, tiles_136@, i, j, keep[i], keep[j]);
    }
    candidates
}

proof fn lemma_count_remove(s: Seq<u8>, i: int, k: int)
    requires
        0 <= i < s.len(),
    ensures
        count_of(s.remove(i), k) + (if s[i] as int == k { 1nat } else { 0nat }) == count_of(s, k),
    decreases s.len(),
{
    if i == s.len() - 1 {
        assert(s.remove(i) =~= s.drop_last());
    } else {
        lemma_count_remove(s.drop_last(), i, k);
        assert(s.remove(i) =~= s.drop_last().remove(i).push(s.last()));
        assert(s.remove(i).drop_last() =~= s.drop_last().remove(i));
    }
}

/// With a tenpai test that answers alike on equal hands, two tiles of the same
/// type are kept or dropped together: discarding either leaves the same hand.
pub proof fn lemma_same_type_same_answer<F: Fn(&Hand) -> bool>(
    is_tenpai: F,
    tiles: Seq<u8>,
    i: int,
    j: int,
    bi: bool,
    bj: bool,
)
    requires
        0 <= i < tiles.len(),
        0 <= j < tiles.len(),
        tiles[i] / 4 == tiles[j] / 4,
        answered(is_tenpai, tiles, i, bi),
        answered(is_tenpai, tiles, j, bj),
        tenpai_test_is_a_function(is_tenpai),
    ensures
        bi == bj,
{
    let hi = choose|h: Hand| #[trigger] is_hand_without(h, tiles, i) && is_tenpai.ensures((&h,), bi);
    let hj = choose|h: Hand| #[trigger] is_hand_without(h, tiles, j) && is_tenpai.ensures((&h,), bj);
    let ty = tile_types(tiles);
    assert forall|k: int| 0 <= k < 34 implies hi.counts@[k] == hj.counts@[k] by {
        lemma_count_remove(ty, i, k);
        lemma_count_remove(ty, j, k);
    }
    assert(hi.counts@ =~= hj.counts@);
}

} // verus!
