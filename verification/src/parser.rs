//! MJAI tile notation.

use vstd::prelude::*;
use vstd::string::StrSliceExecFns;

use crate::text::string_from_chars;

verus! {

/// First tile id of a suit letter (`m`, `p`, `s`).
pub open spec fn suit_base(c: char) -> Option<u8> {
    if c == 'm' {
        Some(0u8)
    } else if c == 'p' {
        Some(36u8)
    } else if c == 's' {
        Some(72u8)
    } else {
        None
    }
}

/// Tile id of an honour letter: E, S, W, N, P (white), F (green), C (red).
pub open spec fn honor_tid(c: char) -> Option<u8> {
    if c == 'E' {
        Some(108u8)
    } else if c == 'S' {
        Some(112u8)
    } else if c == 'W' {
        Some(116u8)
    } else if c == 'N' {
        Some(120u8)
    } else if c == 'P' {
        Some(124u8)
    } else if c == 'F' {
        Some(128u8)
    } else if c == 'C' {
        Some(132u8)
    } else {
        None
    }
}

/// The 136-tile id that MJAI notation names: `5mr`/`5pr`/`5sr` are the red fives
/// (16, 52, 88); an honour letter is the first copy of that honour; a digit
/// 1-9 followed by a suit letter is the first copy of that tile, except that a
/// plain five skips the red copy (id + 1). Anything else names no tile.
pub open spec fn spec_mjai_to_tid(s: Seq<char>) -> Option<u8> {
    if s.len() == 3 {
        if s[0] == '5' && s[2] == 'r' && suit_base(s[1]) is Some {
            Some((suit_base(s[1]).unwrap() + 16) as u8)
        } else {
            None
        }
    } else if s.len() == 1 {
        honor_tid(s[0])
    } else if s.len() == 2 {
        if '1' <= s[0] && s[0] <= '9' && suit_base(s[1]) is Some {
            let num = (s[0] as int) - ('0' as int);
            Some(
                (suit_base(s[1]).unwrap() + (num - 1) * 4 + if num == 5 {
                    1int
                } else {
                    0int
                }) as u8,
            )
        } else {
            None
        }
    } else {
        None
    }
}

fn suit_base_exec(c: char) -> (r: Option<u8>)
    ensures
        r == suit_base(c),
{
    if c == 'm' {
        Some(0)
    } else if c == 'p' {
        Some(36)
    } else if c == 's' {
        Some(72)
    } else {
        None
    }
}

fn honor_tid_exec(c: char) -> (r: Option<u8>)
    ensures
        r == honor_tid(c),
{
    if c == 'E' {
        Some(108)
    } else if c == 'S' {
        Some(112)
    } else if c == 'W' {
        Some(116)
    } else if c == 'N' {
        Some(120)
    } else if c == 'P' {
        Some(124)
    } else if c == 'F' {
        Some(128)
    } else if c == 'C' {
        Some(132)
    } else {
        None
    }
}

/// Convert an MJAI tile string to its 136-tile id.
pub fn mjai_to_tid(mjai: &str) -> (r: Option<u8>)
    ensures
        r == spec_mjai_to_tid(mjai@),
        r matches Some(t) ==> t < 136,
{
    let n = mjai.unicode_len();
    if n == 3 {
        let c0 = mjai.get_char(0);
        let c1 = mjai.get_char(1);
        let c2 = mjai.get_char(2);
        if c0 == '5' && c2 == 'r' {
            match suit_base_exec(c1) {
                Some(b) => Some(b + 16),
                None => None,
            }
        } else {
            None
        }
    } else if n == 1 {
        honor_tid_exec(mjai.get_char(0))
    } else if n == 2 {
        let c0 = mjai.get_char(0);
        let c1 = mjai.get_char(1);
        if '1' <= c0 && c0 <= '9' {
            match suit_base_exec(c1) {
                Some(b) => {
                    let num: u8 = (c0 as u32 - '0' as u32) as u8;
                    let five: u8 = if num == 5 { 1 } else { 0 };
                    Some(b + (num - 1) * 4 + five)
                },
                None => None,
            }
        } else {
            None
        }
    } else {
        None
    }
}


/// Every tile that MJAI notation names is a real tile (below 136).
pub proof fn lemma_mjai_tid_bound(s: Seq<char>)
    ensures
        spec_mjai_to_tid(s) matches Some(t) ==> t < 136,
{
}


/// Suit letter of a suit number 0, 1, 2.
pub open spec fn suit_char(suit: int) -> char {
    if suit == 0 {
        'm'
    } else if suit == 1 {
        'p'
    } else {
        's'
    }
}

/// Honour letter of an honour index 0..6 (E, S, W, N, P, F, C).
pub open spec fn honor_char(i: int) -> char {
    if i == 0 {
        'E'
    } else if i == 1 {
        'S'
    } else if i == 2 {
        'W'
    } else if i == 3 {
        'N'
    } else if i == 4 {
        'P'
    } else if i == 5 {
        'F'
    } else {
        'C'
    }
}

/// MJAI notation of a 136-tile id: `5mr`/`5pr`/`5sr` for the red fives, the
/// rank digit and suit letter for number tiles, the honour letter for honours.
/// An id above 135 falls in the last honour branch and reads as `C`.
pub open spec fn spec_tid_to_mjai(t: u8) -> Seq<char> {
    if t == 16 {
        seq!['5', 'm', 'r']
    } else if t == 52 {
        seq!['5', 'p', 'r']
    } else if t == 88 {
        seq!['5', 's', 'r']
    } else if t < 108 {
        seq![((49 + (t % 36) / 4) as u32) as char, suit_char((t / 36) as int)]
    } else {
        seq![honor_char((t - 108) / 4)]
    }
}

fn suit_char_exec(suit: u8) -> (r: char)
    ensures
        r == suit_char(suit as int),
{
    if suit == 0 {
        'm'
    } else if suit == 1 {
        'p'
    } else {
        's'
    }
}

fn honor_char_exec(i: u8) -> (r: char)
    ensures
        r == honor_char(i as int),
{
    if i == 0 {
        'E'
    } else if i == 1 {
        'S'
    } else if i == 2 {
        'W'
    } else if i == 3 {
        'N'
    } else if i == 4 {
        'P'
    } else if i == 5 {
        'F'
    } else {
        'C'
    }
}

/// Convert a 136-tile id to MJAI notation.
pub fn tid_to_mjai(tid: u8) -> (r: String)
    ensures
        r@ == spec_tid_to_mjai(tid),
{
    let mut chars: Vec<char> = Vec::new();
    if tid == 16 || tid == 52 || tid == 88 {
        chars.push('5');
        chars.push(suit_char_exec(tid / 36));
        chars.push('r');
    } else if tid < 108 {
        let digit: u8 = 49 + (tid % 36) / 4;
        chars.push(digit as char);
        chars.push(suit_char_exec(tid / 36));
    } else {
        chars.push(honor_char_exec((tid - 108) / 4));
    }
    assert(chars@ =~= spec_tid_to_mjai(tid));
    string_from_chars(&chars)
}

/// Notation and tile ids agree: the tile that the notation of `t` names has
/// the type of `t` and is red exactly when `t` is.
pub proof fn lemma_tid_notation_round_trip(t: u8)
    requires
        t < 136,
    ensures
        spec_mjai_to_tid(spec_tid_to_mjai(t)) matches Some(u) && u / 4 == t / 4 && (u == 16 || u
            == 52 || u == 88) == (t == 16 || t == 52 || t == 88),
{
}

/// Notation survives a round trip: a notation that names a tile is the
/// notation of that tile.
pub proof fn lemma_notation_round_trip(s: Seq<char>)
    requires
        spec_mjai_to_tid(s) is Some,
    ensures
        spec_tid_to_mjai(spec_mjai_to_tid(s).unwrap()) == s,
{
    let t = spec_mjai_to_tid(s).unwrap();
    if s.len() == 3 {
        assert(spec_tid_to_mjai(t) =~= s);
    } else if s.len() == 1 {
        assert(spec_tid_to_mjai(t) =~= s);
    } else {
        assert(spec_tid_to_mjai(t) =~= s);
    }
}

} // verus!
