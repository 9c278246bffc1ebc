//! Final placings and game modes.

use vstd::prelude::*;

use crate::events::str_eq;

verus! {

/// Player `j` places ahead of player `i`: a higher score, or the same score
/// and a lower seat.
pub open spec fn places_ahead(scores: Seq<i32>, j: int, i: int) -> bool {
    scores[j] > scores[i] || (scores[j] == scores[i] && j < i)
}

/// How many of the players below `n` place ahead of player `i`.
pub open spec fn ahead_count(scores: Seq<i32>, i: int, n: int) -> nat
    decreases n,
{
    if n <= 0 {
        0
    } else {
        ahead_count(scores, i, n - 1) + if places_ahead(scores, n - 1, i) {
            1nat
        } else {
            0nat
        }
    }
}

/// The placing of player `i` (1 is first): one more than the players ahead.
pub open spec fn spec_rank(scores: Seq<i32>, i: int) -> int {
    1 + ahead_count(scores, i, scores.len() as int) as int
}

proof fn lemma_ahead_count_bound(scores: Seq<i32>, i: int, n: int)
    requires
        0 <= n <= scores.len(),
        0 <= i < scores.len(),
    ensures
        ahead_count(scores, i, n) <= n,
        i < n ==> ahead_count(scores, i, n) <= n - 1,
    decreases n,
{
    if n > 0 {
        lemma_ahead_count_bound(scores, i, n - 1);
    }
}

/// Placings of the players by score: player `i` gets one more than the number
/// of players with a higher score or the same score and a lower seat.
pub fn ranks(scores: &Vec<i32>) -> (r: Vec<usize>)
    ensures
        r@.len() == scores@.len(),
        forall|i: int| 0 <= i < r@.len() ==> r@[i] == spec_rank(scores@, i),
{
    let n = scores.len();
    let mut result: Vec<usize> = Vec::new();
    let mut i: usize = 0;
    while i < n
        invariant
            0 <= i <= n,
            n == scores@.len(),
            result@.len() == i,
            forall|q: int| 0 <= q < i ==> result@[q] == spec_rank(scores@, q),
        decreases n - i,
    {
        let mut count: usize = 0;
        let mut j: usize = 0;
        while j < n
            invariant
                0 <= j <= n,
                i < n,
                n == scores@.len(),
                count == ahead_count(scores@, i as int, j as int),
            decreases n - j,
        {
            proof {
                lemma_ahead_count_bound(scores@, i as int, j as int);
            }
            if scores[j] > scores[i] || (scores[j] == scores[i] && j < i) {
                count = count + 1;
            }
            j = j + 1;
        }
        proof {
            lemma_ahead_count_bound(scores@, i as int, n as int);
        }
        result.push(count + 1);
        i = i + 1;
    }
    result
}

proof fn lemma_ahead_count_gap(scores: Seq<i32>, i: int, j: int, n: int)
    requires
        0 <= i < scores.len(),
        0 <= j < scores.len(),
        0 <= n <= scores.len(),
        places_ahead(scores, j, i),
    ensures
        ahead_count(scores, i, n) >= ahead_count(scores, j, n) + if j < n {
            1int
        } else {
            0int
        },
    decreases n,
{
    if n > 0 {
        lemma_ahead_count_gap(scores, i, j, n - 1);
    }
}

/// Placings are a permutation of 1..n: each lies in 1..n and no two players
/// share one.
pub proof fn lemma_ranks_are_a_permutation(scores: Seq<i32>)
    ensures
        forall|i: int|
            0 <= i < scores.len() ==> 1 <= #[trigger] spec_rank(scores, i) <= scores.len(),
        forall|i: int, j: int|
            0 <= i < scores.len() && 0 <= j < scores.len() && i != j ==> #[trigger] spec_rank(
                scores,
                i,
            ) != #[trigger] spec_rank(scores, j),
{
    assert forall|i: int| 0 <= i < scores.len() implies 1 <= #[trigger] spec_rank(scores, i)
        <= scores.len() by {
        lemma_ahead_count_bound(scores, i, scores.len() as int);
    }
    assert forall|i: int, j: int|
        0 <= i < scores.len() && 0 <= j < scores.len() && i != j implies #[trigger] spec_rank(
        scores,
        i,
    ) != #[trigger] spec_rank(scores, j) by {
        if places_ahead(scores, j, i) {
            lemma_ahead_count_gap(scores, i, j, scores.len() as int);
        } else {
            lemma_ahead_count_gap(scores, j, i, scores.len() as int);
        }
    }
}

/// A higher score never places behind a lower one.
pub proof fn lemma_ranks_follow_scores(scores: Seq<i32>, i: int, j: int)
    requires
        0 <= i < scores.len(),
        0 <= j < scores.len(),
        scores[j] > scores[i],
    ensures
        spec_rank(scores, j) < spec_rank(scores, i),
{
    lemma_ahead_count_gap(scores, i, j, scores.len() as int);
}

/// Equal scores are split by seat: the lower seat places ahead.
pub proof fn lemma_ranks_break_ties_by_seat(scores: Seq<i32>, i: int, j: int)
    requires
        0 <= j < i < scores.len(),
        scores[j] == scores[i],
    ensures
        spec_rank(scores, j) < spec_rank(scores, i),
{
    lemma_ahead_count_gap(scores, i, j, scores.len() as int);
}

/// Game mode number of a mode name: the 4-player single/east/half games are
/// 0-2, the 3-player ones 3-5; any other name is 0.
pub open spec fn spec_game_mode(name: Seq<char>) -> u8 {
    if name == "4p-red-single"@ {
        0
    } else if name == "4p-red-east"@ {
        1
    } else if name == "4p-red-half"@ {
        2
    } else if name == "3p-red-single"@ {
        3
    } else if name == "3p-red-east"@ {
        4
    } else if name == "3p-red-half"@ {
        5
    } else {
        0
    }
}

/// The game mode that a mode name selects.
pub fn game_mode_from_name(name: &str) -> (r: u8)
    ensures
        r == spec_game_mode(name@),
{
    if str_eq(name, "4p-red-single") {
        0
    } else if str_eq(name, "4p-red-east") {
        1
    } else if str_eq(name, "4p-red-half") {
        2
    } else if str_eq(name, "3p-red-single") {
        3
    } else if str_eq(name, "3p-red-east") {
        4
    } else if str_eq(name, "3p-red-half") {
        5
    } else {
        0
    }
}

} // verus!
