//! Checking the wins that a replay simulates against those that the log records.

use vstd::prelude::*;

verus! {

/// Yaku left out of the comparison: dora (31), aka dora (32), ura dora (33).
pub open spec fn is_ignored_yaku(y: u32) -> bool {
    y == 31 || y == 32 || y == 33
}

/// Yakuman yaku ids: 35 to 50.
pub open spec fn is_yakuman_id(y: u32) -> bool {
    35 <= y < 51
}

/// How often `x` occurs in `s`.
pub open spec fn count_u32(s: Seq<u32>, x: u32) -> nat
    decreases s.len(),
{
    if s.len() == 0 {
        0
    } else {
        count_u32(s.drop_last(), x) + if s.last() == x {
            1nat
        } else {
            0nat
        }
    }
}

/// How often `x` occurs among the compared (not ignored) yaku of `s`.
pub open spec fn kept_count(s: Seq<u32>, x: u32) -> nat {
    if is_ignored_yaku(x) {
        0
    } else {
        count_u32(s, x)
    }
}

/// The compared yaku of two lists are equal as multisets (equal once sorted).
pub open spec fn same_yaku(a: Seq<u32>, b: Seq<u32>) -> bool {
    forall|x: u32| #[trigger] kept_count(a, x) == kept_count(b, x)
}

/// Number of ignored yaku in `s`.
pub open spec fn ignored_count(s: Seq<u32>) -> nat
    decreases s.len(),
{
    if s.len() == 0 {
        0
    } else {
        ignored_count(s.drop_last()) + if is_ignored_yaku(s.last()) {
            1nat
        } else {
            0nat
        }
    }
}

/// A simulated win beside the one that the log records.
pub struct AgariComparison {
    pub sim_han: u32,
    pub sim_fu: u32,
    pub sim_yaku: Vec<u32>,
    pub exp_han: u32,
    pub exp_fu: u32,
    pub exp_yaku: Vec<u32>,
}

/// The recorded han, taken 13 times where the recorded yaku hold a yakuman
/// and it is below 13.
pub open spec fn normalized_exp_han(c: AgariComparison) -> int {
    if (exists|i: int| 0 <= i < c.exp_yaku@.len() && is_yakuman_id(c.exp_yaku@[i])) && c.exp_han
        < 13 {
        c.exp_han * 13
    } else {
        c.exp_han as int
    }
}

/// The simulated han that the recorded han predicts: the normalised recorded
/// han less its ignored yaku plus the simulated ignored yaku, in `i32`.
pub open spec fn expected_sim_han(c: AgariComparison) -> int {
    (normalized_exp_han(c) as u32 as i32) as int - ((ignored_count(c.exp_yaku@) as u32) as i32) as int
        + ((ignored_count(c.sim_yaku@) as u32) as i32) as int
}

/// The `i32` arithmetic of [`expected_sim_han`] stays in range.
pub open spec fn comparison_in_range(c: AgariComparison) -> bool {
    let a = (normalized_exp_han(c) as u32 as i32) as int;
    let b = ((ignored_count(c.exp_yaku@) as u32) as i32) as int;
    let d = ((ignored_count(c.sim_yaku@) as u32) as i32) as int;
    &&& i32::MIN <= a - b <= i32::MAX
    &&& i32::MIN <= a - b + d <= i32::MAX
}

/// A simulated win disagrees with the log: the compared yaku differ; or, with
/// equal yaku, the han disagree (below 13 the simulated han must be the
/// predicted one or the normalised recorded one; at 13 and above both must be
/// yakuman), or below 13 the fu differ.
pub open spec fn spec_is_mismatch(c: AgariComparison) -> bool {
    if !same_yaku(c.sim_yaku@, c.exp_yaku@) {
        true
    } else {
        let norm = normalized_exp_han(c);
        let han_mismatch = if norm < 13 && (c.sim_han as i32) as int != expected_sim_han(c) {
            c.sim_han != norm
        } else {
            (c.sim_han >= 13) != (norm >= 13)
        };
        han_mismatch || (norm < 13 && c.sim_fu != c.exp_fu)
    }
}

proof fn lemma_count_positive(s: Seq<u32>, x: u32)
    requires
        count_u32(s, x) > 0,
    ensures
        exists|i: int| 0 <= i < s.len() && s[i] == x,
    decreases s.len(),
{
    if s.last() != x {
        lemma_count_positive(s.drop_last(), x);
        let i = choose|i: int| 0 <= i < s.drop_last().len() && s.drop_last()[i] == x;
        assert(s[i] == x);
    }
}

fn count_kept(s: &Vec<u32>, x: u32) -> (r: usize)
    ensures
        r == kept_count(s@, x),
{
    if x == 31 || x == 32 || x == 33 {
        return 0;
    }
    let mut c: usize = 0;
    let mut i: usize = 0;
    while i < s.len()
        invariant
            0 <= i <= s@.len(),
            c == count_u32(s@.take(i as int), x),
            c <= i,
        decreases s@.len() - i,
    {
        assert(s@.take(i + 1).drop_last() =~= s@.take(i as int));
        if s[i] == x {
            c = c + 1;
        }
        i = i + 1;
    }
    assert(s@.take(i as int) =~= s@);
    c
}

/// Whether every element of `a` occurs as often among the compared yaku of `a` as of `b`.
fn counts_agree_on(a: &Vec<u32>, b: &Vec<u32>, keys: &Vec<u32>) -> (r: bool)
    ensures
        r == forall|i: int| 0 <= i < keys@.len() ==> kept_count(a@, #[trigger] keys@[i]) == kept_count(b@, keys@[i]),
{
    let mut i: usize = 0;
    while i < keys.len()
        invariant
            0 <= i <= keys@.len(),
            forall|j: int| 0 <= j < i ==> kept_count(a@, #[trigger] keys@[j]) == kept_count(b@, keys@[j]),
        decreases keys@.len() - i,
    {
        if count_kept(a, keys[i]) != count_kept(b, keys[i]) {
            return false;
        }
        i = i + 1;
    }
    true
}

/// Whether the compared yaku of two lists are equal as multisets.
pub fn yaku_match(a: &Vec<u32>, b: &Vec<u32>) -> (r: bool)
    ensures
        r == same_yaku(a@, b@),
{
    let on_a = counts_agree_on(a, b, a);
    let on_b = counts_agree_on(a, b, b);
    proof {
        if on_a && on_b {
            assert forall|x: u32| #[trigger] kept_count(a@, x) == kept_count(b@, x) by {
                if kept_count(a@, x) > 0 {
                    lemma_count_positive(a@, x);
                    let i = choose|i: int| 0 <= i < a@.len() && a@[i] == x;
                    assert(kept_count(a@, a@[i]) == kept_count(b@, a@[i]));
                } else if kept_count(b@, x) > 0 {
                    lemma_count_positive(b@, x);
                    let i = choose|i: int| 0 <= i < b@.len() && b@[i] == x;
                    assert(kept_count(a@, b@[i]) == kept_count(b@, b@[i]));
                }
            }
        }
    }
    on_a && on_b
}

fn count_ignored(s: &Vec<u32>) -> (r: usize)
    ensures
        r == ignored_count(s@),
{
    let mut c: usize = 0;
    let mut i: usize = 0;
    while i < s.len()
        invariant
            0 <= i <= s@.len(),
            c == ignored_count(s@.take(i as int)),
            c <= i,
        decreases s@.len() - i,
    {
        assert(s@.take(i + 1).drop_last() =~= s@.take(i as int));
        if s[i] == 31 || s[i] == 32 || s[i] == 33 {
            c = c + 1;
        }
        i = i + 1;
    }
    assert(s@.take(i as int) =~= s@);
    c
}

fn has_yakuman(s: &Vec<u32>) -> (r: bool)
    ensures
        r == exists|i: int| 0 <= i < s@.len() && is_yakuman_id(s@[i]),
{
    let mut i: usize = 0;
    while i < s.len()
        invariant
            0 <= i <= s@.len(),
            forall|j: int| 0 <= j < i ==> !is_yakuman_id(#[trigger] s@[j]),
        decreases s@.len() - i,
    {
        if 35 <= s[i] && s[i] < 51 {
            return true;
        }
        i = i + 1;
    }
    false
}

/// Whether the `i32` arithmetic of the han comparison stays in range for `c`
/// (see [`comparison_in_range`]); where it does not, the comparison overflows.
pub fn comparison_fits(c: &AgariComparison) -> (r: bool)
    ensures
        r == comparison_in_range(*c),
{
    let mut norm = c.exp_han;
    if has_yakuman(&c.exp_yaku) && c.exp_han < 13 {
        norm = c.exp_han * 13;
    }
    let a: i64 = (norm as i32) as i64;
    let b: i64 = ((count_ignored(&c.exp_yaku) as u32) as i32) as i64;
    let d: i64 = ((count_ignored(&c.sim_yaku) as u32) as i32) as i64;
    let lo: i64 = i32::MIN as i64;
    let hi: i64 = i32::MAX as i64;
    lo <= a - b && a - b <= hi && lo <= a - b + d && a - b + d <= hi
}

/// Whether a simulated win disagrees with the log (see [`spec_is_mismatch`]).
pub fn is_mismatch(c: &AgariComparison) -> (r: bool)
    requires
        comparison_in_range(*c),
    ensures
        r == spec_is_mismatch(*c),
{
    if !yaku_match(&c.sim_yaku, &c.exp_yaku) {
        return true;
    }
    let mut norm = c.exp_han;
    if has_yakuman(&c.exp_yaku) && c.exp_han < 13 {
        norm = c.exp_han * 13;
    }
    let sim_ignored = count_ignored(&c.sim_yaku) as u32;
    let exp_ignored = count_ignored(&c.exp_yaku) as u32;
    let expected: i32 = norm as i32 - exp_ignored as i32 + sim_ignored as i32;
    let mut mismatch = false;
    if norm < 13 && c.sim_han as i32 != expected {
        if c.sim_han != norm {
            mismatch = true;
        }
    } else if (c.sim_han >= 13) != (norm >= 13) {
        mismatch = true;
    }
    if !mismatch && norm < 13 && c.sim_fu != c.exp_fu {
        mismatch = true;
    }
    mismatch
}

/// When a simulated win disagrees with the log: compared yaku that differ
/// always disagree; with the same compared yaku, a recorded han below 13 (after
/// the yakuman normalisation) and different fu always disagree, whatever the
/// han; at 13 han and above only a simulated han below 13 disagrees; and a
/// simulation with the recorded han, the recorded fu and the same yaku agrees.
pub proof fn lemma_mismatch_rules(c: AgariComparison)
    ensures
        !same_yaku(c.sim_yaku@, c.exp_yaku@) ==> spec_is_mismatch(c),
        same_yaku(c.sim_yaku@, c.exp_yaku@) && normalized_exp_han(c) < 13 && c.sim_fu != c.exp_fu
            ==> spec_is_mismatch(c),
        same_yaku(c.sim_yaku@, c.exp_yaku@) && normalized_exp_han(c) >= 13 ==> (spec_is_mismatch(c)
            <==> c.sim_han < 13),
        same_yaku(c.sim_yaku@, c.exp_yaku@) && c.sim_han == normalized_exp_han(c) && c.sim_fu
            == c.exp_fu ==> !spec_is_mismatch(c),
{
}

/// Number of comparisons of `cs` that disagree.
pub open spec fn mismatch_count(cs: Seq<AgariComparison>) -> nat
    decreases cs.len(),
{
    if cs.len() == 0 {
        0
    } else {
        mismatch_count(cs.drop_last()) + if spec_is_mismatch(cs.last()) {
            1nat
        } else {
            0nat
        }
    }
}

/// Counts the wins and the disagreeing wins of a replay.
pub fn verify_comparisons(cs: &Vec<AgariComparison>) -> (r: (usize, usize))
    requires
        forall|i: int| 0 <= i < cs@.len() ==> comparison_in_range(#[trigger] cs@[i]),
    ensures
        r.0 == cs@.len(),
        r.1 == mismatch_count(cs@),
{
    let mut total: usize = 0;
    let mut mismatches: usize = 0;
    while total < cs.len()
        invariant
            0 <= total <= cs@.len(),
            mismatches == mismatch_count(cs@.take(total as int)),
            mismatches <= total,
            forall|i: int| 0 <= i < cs@.len() ==> comparison_in_range(#[trigger] cs@[i]),
        decreases cs@.len() - total,
    {
        assert(cs@.take(total + 1).drop_last() =~= cs@.take(total as int));
        if is_mismatch(&cs[total]) {
            mismatches = mismatches + 1;
        }
        total = total + 1;
    }
    assert(cs@.take(total as int) =~= cs@);
    (total, mismatches)
}

} // verus!
