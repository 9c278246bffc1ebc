//! A player's view of a four-player game, and the sequence features
//! (sparse tokens, numeric values, progression and candidates) drawn from it.

use vstd::prelude::*;

use crate::action::{Action, ActionType};
use crate::events::{
    events_view, mjai_json_event, opt_event_view, opt_str_is, parse_mjai_events, MjaiEventFields,
    MjaiEventView,
};
use crate::parser::{mjai_to_tid, spec_mjai_to_tid};
use crate::sequence_features::{
    encode_chi, encode_pon, lemma_chi_code_bounded, lemma_pon_codes, relative_from,
    spec_encode_chi, spec_encode_pon, spec_relative_from, spec_tile_id_to_kan37, tile_id_to_kan37,
    CAND_DIMS, MAX_PROG_LEN, NUM_NUMERIC, PROG_DIMS, SPARSE_PAD,
};
use crate::types::Meld;

verus! {

/// What one player sees of a four-player game.
pub struct Observation {
    pub player_id: u8,
    pub hands: [Vec<u32>; 4],
    pub melds: [Vec<Meld>; 4],
    pub discards: [Vec<u32>; 4],
    pub dora_indicators: Vec<u32>,
    pub scores: [i32; 4],
    pub _legal_actions: Vec<Action>,
    pub events: Vec<String>,
    pub honba: u8,
    pub riichi_sticks: u32,
    pub round_wind: u8,
    pub oya: u8,
}

/// The parsed events of a list of JSON texts.
pub open spec fn parsed_events(evs: Seq<String>) -> Seq<Option<MjaiEventView>> {
    evs.map_values(|s: String| mjai_json_event(s@))
}

// ── Tiles remaining ──────────────────────────────────────────────────────────

/// Sum of the tile counts of some melds, each count truncated to `u32`.
pub open spec fn meld_tiles_used(ms: Seq<Meld>) -> int
    decreases ms.len(),
{
    if ms.len() == 0 {
        0
    } else {
        meld_tiles_used(ms.drop_last()) + (ms.last().tiles@.len() as u32) as int
    }
}

/// Tiles that hands, discards, melds and dora indicators hold, each length
/// truncated to `u32` as the count does.
pub open spec fn tiles_used(o: Observation) -> int {
    (o.hands@[0]@.len() as u32) as int + (o.hands@[1]@.len() as u32) as int + (
    o.hands@[2]@.len() as u32) as int + (o.hands@[3]@.len() as u32) as int + (
    o.discards@[0]@.len() as u32) as int + (o.discards@[1]@.len() as u32) as int + (
    o.discards@[2]@.len() as u32) as int + (o.discards@[3]@.len() as u32) as int
        + meld_tiles_used(o.melds@[0]@) + meld_tiles_used(o.melds@[1]@) + meld_tiles_used(
        o.melds@[2]@,
    ) + meld_tiles_used(o.melds@[3]@) + (o.dora_indicators@.len() as u32) as int
}

/// Approximate tiles left in the live wall: 136 less the 14 of the dead wall
/// and the tiles used, at least 0.
pub open spec fn spec_tiles_remaining(o: Observation) -> int {
    if 14 + tiles_used(o) <= 136 {
        136 - 14 - tiles_used(o)
    } else {
        0
    }
}

fn melds_tile_count(ms: &Vec<Meld>, acc: u32, bound: Ghost<int>) -> (r: u32)
    requires
        acc + meld_tiles_used(ms@) <= bound@,
        bound@ <= u32::MAX,
    ensures
        r == acc + meld_tiles_used(ms@),
{
    let mut total = acc;
    let mut i: usize = 0;
    while i < ms.len()
        invariant
            0 <= i <= ms@.len(),
            total == acc + meld_tiles_used(ms@.take(i as int)),
            acc + meld_tiles_used(ms@) <= bound@,
            bound@ <= u32::MAX,
        decreases ms@.len() - i,
    {
        proof {
            assert(ms@.take(i + 1).drop_last() =~= ms@.take(i as int));
            lemma_meld_tiles_used_prefix(ms@, i + 1);
        }
        total = total + ms[i].tiles.len() as u32;
        i = i + 1;
    }
    assert(ms@.take(i as int) =~= ms@);
    total
}

proof fn lemma_meld_tiles_used_prefix(ms: Seq<Meld>, n: int)
    requires
        0 <= n <= ms.len(),
    ensures
        0 <= meld_tiles_used(ms.take(n)) <= meld_tiles_used(ms),
    decreases ms.len() - n,
{
    if n < ms.len() {
        lemma_meld_tiles_used_prefix(ms, n + 1);
        assert(ms.take(n + 1).drop_last() =~= ms.take(n));
    } else {
        assert(ms.take(n) =~= ms);
    }
    lemma_meld_tiles_used_nonneg(ms.take(n));
}

proof fn lemma_meld_tiles_used_nonneg(ms: Seq<Meld>)
    ensures
        meld_tiles_used(ms) >= 0,
    decreases ms.len(),
{
    if ms.len() > 0 {
        lemma_meld_tiles_used_nonneg(ms.drop_last());
    }
}

impl Observation {
    /// Count approximate tiles remaining in the wall.
    pub fn count_tiles_remaining(&self) -> (r: u16)
        requires
            tiles_used(*self) + 14 <= u32::MAX,
        ensures
            r == spec_tiles_remaining(*self),
    {
        let ghost bound = tiles_used(*self);
        proof {
            lemma_meld_tiles_used_nonneg(self.melds@[0]@);
            lemma_meld_tiles_used_nonneg(self.melds@[1]@);
            lemma_meld_tiles_used_nonneg(self.melds@[2]@);
            lemma_meld_tiles_used_nonneg(self.melds@[3]@);
        }
        let mut used: u32 = self.hands[0].len() as u32;
        used = used + self.hands[1].len() as u32;
        used = used + self.hands[2].len() as u32;
        used = used + self.hands[3].len() as u32;
        used = used + self.discards[0].len() as u32;
        used = used + self.discards[1].len() as u32;
        used = used + self.discards[2].len() as u32;
        used = used + self.discards[3].len() as u32;
        used = melds_tile_count(&self.melds[0], used, Ghost(bound));
        used = melds_tile_count(&self.melds[1], used, Ghost(bound));
        used = melds_tile_count(&self.melds[2], used, Ghost(bound));
        used = melds_tile_count(&self.melds[3], used, Ghost(bound));
        used = used + self.dora_indicators.len() as u32;
        let total_tiles: u32 = 136;
        let wall_size = total_tiles.saturating_sub(14 + used);
        wall_size as u16
    }
}


// ── Events ───────────────────────────────────────────────────────────────────

/// Whether a parsed event has the given type.
pub open spec fn has_type(e: MjaiEventView, t: Seq<char>) -> bool {
    e.event_type == Some(t)
}

/// Events after which a drawn tile no longer counts: a discard or a call.
pub open spec fn is_decision_event(e: MjaiEventView) -> bool {
    has_type(e, "dahai"@) || has_type(e, "chi"@) || has_type(e, "pon"@) || has_type(
        e,
        "daiminkan"@,
    )
}

/// The tile that player `pid` last drew: walking the events backwards, the
/// first `tsumo` of that player with a visible tile gives its tile id (or
/// none where the notation names no tile); a discard or a call first gives none.
/// Events that did not parse are passed over.
pub open spec fn spec_drawn_tile(evs: Seq<Option<MjaiEventView>>, pid: u8) -> Option<u8>
    decreases evs.len(),
{
    if evs.len() == 0 {
        None
    } else {
        match evs.last() {
            None => spec_drawn_tile(evs.drop_last(), pid),
            Some(e) => {
                if has_type(e, "tsumo"@) && e.actor == Some(pid as u64) && e.pai is Some
                    && e.pai.unwrap() != "?"@ {
                    spec_mjai_to_tid(e.pai.unwrap())
                } else if is_decision_event(e) {
                    None
                } else {
                    spec_drawn_tile(evs.drop_last(), pid)
                }
            },
        }
    }
}

/// The actor of the last discard or added kan: walking the events backwards,
/// the first `dahai` or `kakan` gives its actor (cast to a byte), or none where it has none.
pub open spec fn spec_last_discard_actor(evs: Seq<Option<MjaiEventView>>) -> Option<u8>
    decreases evs.len(),
{
    if evs.len() == 0 {
        None
    } else {
        match evs.last() {
            None => spec_last_discard_actor(evs.drop_last()),
            Some(e) => {
                if has_type(e, "dahai"@) || has_type(e, "kakan"@) {
                    match e.actor {
                        Some(a) => Some(a as u8),
                        None => None,
                    }
                } else {
                    spec_last_discard_actor(evs.drop_last())
                }
            },
        }
    }
}

proof fn lemma_events_view_take(evs: Seq<Option<MjaiEventFields>>, i: int)
    requires
        0 < i <= evs.len(),
    ensures
        events_view(evs.take(i)).last() == opt_event_view(evs[i - 1]),
        events_view(evs.take(i)).drop_last() =~= events_view(evs.take(i - 1)),
        events_view(evs.take(i)).len() == i,
{
}

/// The tile that player `player_id` last drew, from parsed events (see [`spec_drawn_tile`]).
pub fn drawn_tile_from_events(events: &Vec<Option<MjaiEventFields>>, player_id: u8) -> (r: Option<
    u8,
>)
    ensures
        r == spec_drawn_tile(events_view(events@), player_id),
{
    let mut i: usize = events.len();
    assert(events@.take(i as int) =~= events@);
    while i > 0
        invariant
            0 <= i <= events@.len(),
            spec_drawn_tile(events_view(events@), player_id) == spec_drawn_tile(
                events_view(events@.take(i as int)),
                player_id,
            ),
        decreases i,
    {
        proof {
            lemma_events_view_take(events@, i as int);
        }
        match &events[i - 1] {
            None => {},
            Some(e) => {
                let is_tsumo = opt_str_is(&e.event_type, "tsumo");
                if is_tsumo && e.actor == Some(player_id as u64) {
                    match &e.pai {
                        Some(pai) => {
                            if !crate::events::str_eq(pai.as_str(), "?") {
                                return mjai_to_tid(pai.as_str());
                            }
                        },
                        None => {},
                    }
                }
                if opt_str_is(&e.event_type, "dahai") || opt_str_is(&e.event_type, "chi")
                    || opt_str_is(&e.event_type, "pon") || opt_str_is(&e.event_type, "daiminkan") {
                    return None;
                }
            },
        }
        i = i - 1;
    }
    None
}

/// The actor of the last discard or added kan, from parsed events (see [`spec_last_discard_actor`]).
pub fn last_discard_actor_from_events(events: &Vec<Option<MjaiEventFields>>) -> (r: Option<u8>)
    ensures
        r == spec_last_discard_actor(events_view(events@)),
{
    let mut i: usize = events.len();
    assert(events@.take(i as int) =~= events@);
    while i > 0
        invariant
            0 <= i <= events@.len(),
            spec_last_discard_actor(events_view(events@)) == spec_last_discard_actor(
                events_view(events@.take(i as int)),
            ),
        decreases i,
    {
        proof {
            lemma_events_view_take(events@, i as int);
        }
        match &events[i - 1] {
            None => {},
            Some(e) => {
                if opt_str_is(&e.event_type, "dahai") || opt_str_is(&e.event_type, "kakan") {
                    return match e.actor {
                        Some(a) => Some(a as u8),
                        None => None,
                    };
                }
            },
        }
        i = i - 1;
    }
    None
}


// ── Sparse features ──────────────────────────────────────────────────────────

/// Smaller of two integers.
pub open spec fn min_int(a: int, b: int) -> int {
    if a < b {
        a
    } else {
        b
    }
}

/// Dora tokens: for each of the first five indicators, 83 + slot * 37 + its kan37 index.
pub open spec fn dora_tokens(dora: Seq<u32>) -> Seq<u16>
    decreases dora.len(),
{
    if dora.len() == 0 {
        seq![]
    } else {
        let prev = dora_tokens(dora.drop_last());
        let i = dora.len() - 1;
        if i >= 5 {
            prev
        } else {
            prev.push((83 + i * 37 + spec_tile_id_to_kan37(dora.last())) as u16)
        }
    }
}

/// Hand tokens: 268 + id for each tile whose id, truncated to `u16`, is below 136.
pub open spec fn hand_tokens(hand: Seq<u32>) -> Seq<u16>
    decreases hand.len(),
{
    if hand.len() == 0 {
        seq![]
    } else {
        let prev = hand_tokens(hand.drop_last());
        let t = hand.last() as u16;
        if t < 136 {
            prev.push((268 + t) as u16)
        } else {
            prev
        }
    }
}

/// The sparse tokens: game style, seat, round wind, dealer, tiles remaining
/// (each clamped into its range and shifted to its offset), then the dora,
/// hand and drawn-tile tokens.
pub open spec fn spec_sparse_tokens(o: Observation, game_style: u8, drawn: Option<u8>) -> Seq<u16> {
    let head = seq![
        min_int(game_style as int, 1) as u16,
        (2 + min_int(o.player_id as int, 3)) as u16,
        (6 + min_int(o.round_wind as int, 2)) as u16,
        (9 + min_int(o.oya as int, 3)) as u16,
        (13 + min_int(spec_tiles_remaining(o), 69)) as u16,
    ];
    let tail = match drawn {
        Some(d) => seq![(404 + spec_tile_id_to_kan37(d as u32)) as u16],
        None => seq![],
    };
    head + dora_tokens(o.dora_indicators@) + hand_tokens(o.hands@[o.player_id as int]@) + tail
}

impl Observation {
    /// The tile this player last drew, read from the events (see [`spec_drawn_tile`]).
    pub fn get_drawn_tile(&self) -> (r: Option<u8>)
        ensures
            r == spec_drawn_tile(parsed_events(self.events@), self.player_id),
    {
        let parsed = parse_mjai_events(&self.events);
        assert(events_view(parsed@) =~= parsed_events(self.events@));
        drawn_tile_from_events(&parsed, self.player_id)
    }

    /// The actor of the last discard, read from the events (see [`spec_last_discard_actor`]).
    pub fn find_last_discard_actor(&self) -> (r: Option<u8>)
        ensures
            r == spec_last_discard_actor(parsed_events(self.events@)),
    {
        let parsed = parse_mjai_events(&self.events);
        assert(events_view(parsed@) =~= parsed_events(self.events@));
        last_discard_actor_from_events(&parsed)
    }

    /// Sparse tokens, given the tile this player last drew.
    pub fn encode_seq_sparse_with_drawn(&self, game_style: u8, drawn: Option<u8>) -> (r: Vec<u16>)
        requires
            self.player_id < 4,
            tiles_used(*self) + 14 <= u32::MAX,
        ensures
            r@ == spec_sparse_tokens(*self, game_style, drawn),
    {
        let mut tokens: Vec<u16> = Vec::new();
        let gs: u16 = if game_style < 1 { game_style as u16 } else { 1 };
        tokens.push(gs);
        let pid: u16 = if self.player_id < 3 { self.player_id as u16 } else { 3 };
        tokens.push(2 + pid);
        let rw: u16 = if self.round_wind < 2 { self.round_wind as u16 } else { 2 };
        tokens.push(6 + rw);
        let oya: u16 = if self.oya < 3 { self.oya as u16 } else { 3 };
        tokens.push(9 + oya);
        let tiles_remaining = self.count_tiles_remaining();
        let rem: u16 = if tiles_remaining < 69 { tiles_remaining } else { 69 };
        tokens.push(13 + rem);
        let ghost head = tokens@;

        let mut i: usize = 0;
        while i < self.dora_indicators.len() && i < 5
            invariant
                0 <= i <= self.dora_indicators@.len(),
                i <= 5,
                tokens@ == head + dora_tokens(self.dora_indicators@.take(i as int)),
            decreases self.dora_indicators@.len() - i,
        {
            assert(self.dora_indicators@.take(i + 1).drop_last() =~= self.dora_indicators@.take(
                i as int,
            ));
            let k37 = tile_id_to_kan37(self.dora_indicators[i]);
            tokens.push(83 + (i as u16) * 37 + k37 as u16);
            i = i + 1;
        }
        proof {
            lemma_dora_tokens_saturate(self.dora_indicators@, i as int);
        }
        let ghost mid = tokens@;

        let my_hand = &self.hands[self.player_id as usize];
        let mut j: usize = 0;
        while j < my_hand.len()
            invariant
                0 <= j <= my_hand@.len(),
                tokens@ == mid + hand_tokens(my_hand@.take(j as int)),
            decreases my_hand@.len() - j,
        {
            assert(my_hand@.take(j + 1).drop_last() =~= my_hand@.take(j as int));
            let tid = my_hand[j] as u16;
            if tid < 136 {
                tokens.push(268 + tid);
            }
            j = j + 1;
        }
        assert(my_hand@.take(j as int) =~= my_hand@);

        match drawn {
            Some(d) => {
                let k37 = tile_id_to_kan37(d as u32);
                tokens.push(404 + k37 as u16);
            },
            None => {},
        }
        tokens
    }

    /// Encode sparse features: variable-length u16 indices.
    ///
    /// Offsets:
    /// - 0-1: game style (0=tonpuusen, 1=hanchan)
    /// - 2-5: seat (player_id)
    /// - 6-8: chang / round wind (E/S/W)
    /// - 9-12: ju / dealer round (0-3)
    /// - 13-82: tiles remaining (0-69)
    /// - 83-267: dora indicators (5 slots × 37 tiles)
    /// - 268-403: hand tile instances (tile_id 0-135 → offset 268 + instance index)
    /// - 404-440: drawn tile (kan37)
    /// - 441: padding
    pub fn encode_seq_sparse(&self, game_style: u8) -> (r: Vec<u16>)
        requires
            self.player_id < 4,
            tiles_used(*self) + 14 <= u32::MAX,
        ensures
            r@ == spec_sparse_tokens(
                *self,
                game_style,
                spec_drawn_tile(parsed_events(self.events@), self.player_id),
            ),
            game_style >= 1 ==> r@ == spec_sparse_tokens(
                *self,
                1,
                spec_drawn_tile(parsed_events(self.events@), self.player_id),
            ),
    {
        proof {
            if game_style >= 1 {
                lemma_game_style_saturates(
                    *self,
                    game_style,
                    spec_drawn_tile(parsed_events(self.events@), self.player_id),
                );
            }
        }
        let drawn = self.get_drawn_tile();
        self.encode_seq_sparse_with_drawn(game_style, drawn)
    }
}

proof fn lemma_dora_tokens_saturate(dora: Seq<u32>, i: int)
    requires
        0 <= i <= dora.len(),
        i == dora.len() || i >= 5,
    ensures
        dora_tokens(dora.take(i)) == dora_tokens(dora),
    decreases dora.len() - i,
{
    if i < dora.len() {
        lemma_dora_tokens_saturate(dora, i + 1);
        assert(dora.take(i + 1).drop_last() =~= dora.take(i));
    } else {
        assert(dora.take(i) =~= dora);
    }
}


// ── Progression features ─────────────────────────────────────────────────────

/// The tile ids of the `consumed` items that are strings naming a tile, in order.
pub open spec fn spec_consumed_tids(items: Option<Seq<Option<Seq<char>>>>) -> Seq<u8> {
    match items {
        None => seq![],
        Some(s) => consumed_list_tids(s),
    }
}

/// The tile ids of the string items of `s` that name a tile, in order.
pub open spec fn consumed_list_tids(s: Seq<Option<Seq<char>>>) -> Seq<u8>
    decreases s.len(),
{
    if s.len() == 0 {
        seq![]
    } else {
        let prev = consumed_list_tids(s.drop_last());
        match s.last() {
            Some(x) => match spec_mjai_to_tid(x) {
                Some(t) => prev.push(t),
                None => prev,
            },
            None => prev,
        }
    }
}

/// An optional integer field, 0 when absent, cast to a byte.
pub open spec fn field_u8(f: Option<u64>) -> u8 {
    match f {
        Some(a) => a as u8,
        None => 0u8,
    }
}

/// The `pai` field, `"?"` when absent.
pub open spec fn pai_of(e: MjaiEventView) -> Seq<char> {
    match e.pai {
        Some(p) => p,
        None => "?"@,
    }
}

/// kan37 index of an MJAI tile string, where it names a tile.
pub open spec fn spec_mjai_tile_to_kan37(s: Seq<char>) -> Option<u8> {
    match spec_mjai_to_tid(s) {
        Some(t) => Some(spec_tile_id_to_kan37(t as u32)),
        None => None,
    }
}

/// A call (chi or pon) tuple: actor, type (`base` + the pattern code), the
/// two "not applicable" markers, and the seat called from relative to the actor.
pub open spec fn call_tuple(e: MjaiEventView, type_idx: int) -> [u16; 5] {
    let actor = field_u8(e.actor);
    [
        actor as u16,
        type_idx as u16,
        2u16,
        2u16,
        spec_relative_from(actor, field_u8(e.target)) as u16,
    ]
}

/// One step of the progression encoder: the tuples so far and the seat with a
/// pending riichi declaration, after one more event.
///
/// `start_kyoku` pushes the round marker; `reach` records its actor (as a byte)
/// for the next discard; `dahai` pushes (actor, 1 + kan37, tsumogiri, riichi, 4)
/// and clears a pending riichi of its actor; `chi`/`pon` push 38/128 + the
/// pattern code with the relative seat (they need at least two consumed tiles);
/// `daiminkan` pushes 168 + kan37; `ankan` pushes 205 + the type of its first
/// consumed tile; `kakan` pushes 239 + kan37. A tile that is `"?"`, absent, or
/// names no tile leaves the state unchanged, as do all other events.
pub open spec fn prog_step(p: Seq<[u16; 5]>, pending: Option<u8>, ev: Option<MjaiEventView>) -> (
    Seq<[u16; 5]>,
    Option<u8>,
) {
    match ev {
        None => (p, pending),
        Some(e) => {
            let actor = field_u8(e.actor);
            let pai = pai_of(e);
            if has_type(e, "start_kyoku"@) {
                (p.push([4u16, 0u16, 2u16, 2u16, 4u16]), pending)
            } else if has_type(e, "reach"@) {
                match e.actor {
                    Some(a) => (p, Some(a as u8)),
                    None => (p, pending),
                }
            } else if has_type(e, "dahai"@) {
                if pai == "?"@ {
                    (p, pending)
                } else {
                    match spec_mjai_tile_to_kan37(pai) {
                        None => (p, pending),
                        Some(k) => {
                            let moqie = if e.tsumogiri == Some(true) {
                                1u16
                            } else {
                                0u16
                            };
                            let liqi = pending == Some(actor);
                            (
                                p.push(
                                    [
                                        actor as u16,
                                        (1 + k) as u16,
                                        moqie,
                                        if liqi {
                                            1u16
                                        } else {
                                            0u16
                                        },
                                        4u16,
                                    ],
                                ),
                                if liqi {
                                    None
                                } else {
                                    pending
                                },
                            )
                        },
                    }
                }
            } else if has_type(e, "chi"@) || has_type(e, "pon"@) {
                if pai == "?"@ {
                    (p, pending)
                } else {
                    match spec_mjai_to_tid(pai) {
                        None => (p, pending),
                        Some(called) => {
                            let consumed = spec_consumed_tids(e.consumed);
                            if consumed.len() < 2 {
                                (p, pending)
                            } else if has_type(e, "chi"@) {
                                (p.push(call_tuple(e, 38 + spec_encode_chi(consumed, called))), pending)
                            } else {
                                (p.push(call_tuple(e, 128 + spec_encode_pon(consumed, called))), pending)
                            }
                        },
                    }
                }
            } else if has_type(e, "daiminkan"@) {
                if pai == "?"@ {
                    (p, pending)
                } else {
                    match spec_mjai_tile_to_kan37(pai) {
                        None => (p, pending),
                        Some(k) => (p.push(call_tuple(e, 168 + k)), pending),
                    }
                }
            } else if has_type(e, "ankan"@) {
                let consumed = spec_consumed_tids(e.consumed);
                if consumed.len() == 0 {
                    (p, pending)
                } else {
                    (
                        p.push([actor as u16, (205 + consumed[0] / 4) as u16, 2u16, 2u16, 4u16]),
                        pending,
                    )
                }
            } else if has_type(e, "kakan"@) {
                if pai == "?"@ {
                    (p, pending)
                } else {
                    match spec_mjai_tile_to_kan37(pai) {
                        None => (p, pending),
                        Some(k) => (
                            p.push([actor as u16, (239 + k) as u16, 2u16, 2u16, 4u16]),
                            pending,
                        ),
                    }
                }
            } else {
                (p, pending)
            }
        },
    }
}

/// The progression encoder run over `evs` in order, stopping once it holds
/// `MAX_PROG_LEN` tuples.
pub open spec fn prog_run(evs: Seq<Option<MjaiEventView>>) -> (Seq<[u16; 5]>, Option<u8>)
    decreases evs.len(),
{
    if evs.len() == 0 {
        (seq![], None)
    } else {
        let prev = prog_run(evs.drop_last());
        if prev.0.len() >= MAX_PROG_LEN {
            prev
        } else {
            prog_step(prev.0, prev.1, evs.last())
        }
    }
}

/// The progression tuples of a list of parsed events.
pub open spec fn spec_progression(evs: Seq<Option<MjaiEventView>>) -> Seq<[u16; 5]> {
    prog_run(evs).0
}

/// Parse "consumed" items → tile IDs of the items that are strings naming a tile.
pub fn parse_consumed_tids(items: &Option<Vec<Option<String>>>) -> (r: Vec<u8>)
    ensures
        r@ == spec_consumed_tids(
            match items {
                Some(v) => Some(v@.map_values(|x: Option<String>| crate::events::opt_str_view(x))),
                None => None,
            },
        ),
        forall|i: int| 0 <= i < r@.len() ==> r@[i] < 136,
{
    let mut tids: Vec<u8> = Vec::new();
    match items {
        None => {},
        Some(arr) => {
            let ghost s = arr@.map_values(|x: Option<String>| crate::events::opt_str_view(x));
            let mut i: usize = 0;
            while i < arr.len()
                invariant
                    0 <= i <= arr@.len(),
                    s == arr@.map_values(|x: Option<String>| crate::events::opt_str_view(x)),
                    tids@ == consumed_list_tids(s.take(i as int)),
                    forall|j: int| 0 <= j < tids@.len() ==> tids@[j] < 136,
                decreases arr@.len() - i,
            {
                assert(s.take(i + 1).drop_last() =~= s.take(i as int));
                match &arr[i] {
                    Some(x) => {
                        match mjai_to_tid(x.as_str()) {
                            Some(t) => tids.push(t),
                            None => {},
                        }
                    },
                    None => {},
                }
                i = i + 1;
            }
            assert(s.take(i as int) =~= s);
        },
    }
    tids
}

fn push_call(
    prog: &mut Vec<[u16; 5]>,
    e: &MjaiEventFields,
    type_idx: u16,
)
    ensures
        final(prog)@ == old(prog)@.push(call_tuple(e@, type_idx as int)),
{
    let actor: u8 = match e.actor {
        Some(a) => a as u8,
        None => 0,
    };
    let target: u8 = match e.target {
        Some(a) => a as u8,
        None => 0,
    };
    let rel = relative_from(actor, target);
    prog.push([actor as u16, type_idx, 2, 2, rel as u16]);
}

/// One step of the progression encoder on a parsed event (see [`prog_step`]).
pub fn progression_step(
    prog: &mut Vec<[u16; 5]>,
    pending: &mut Option<u8>,
    ev: &Option<MjaiEventFields>,
)
    ensures
        (final(prog)@, *final(pending)) == prog_step(old(prog)@, *old(pending), opt_event_view(*ev)),
{
    let e = match ev {
        None => {
            return ;
        },
        Some(e) => e,
    };
    let actor: u8 = match e.actor {
        Some(a) => a as u8,
        None => 0,
    };
    let pai_missing = match &e.pai {
        Some(p) => crate::events::str_eq(p.as_str(), "?"),
        None => true,
    };
    proof {
        reveal_strlit("?");
    }
    assert(pai_missing == (pai_of(e@) == "?"@));
    if opt_str_is(&e.event_type, "start_kyoku") {
        prog.push([4, 0, 2, 2, 4]);
    } else if opt_str_is(&e.event_type, "reach") {
        match e.actor {
            Some(a) => {
                *pending = Some(a as u8);
            },
            None => {},
        }
    } else if opt_str_is(&e.event_type, "dahai") {
        if pai_missing {
            return ;
        }
        let pai = match &e.pai {
            Some(p) => p,
            None => {
                return ;
            },
        };
        let k37 = match mjai_to_tid(pai.as_str()) {
            Some(t) => tile_id_to_kan37(t as u32),
            None => {
                return ;
            },
        };
        let moqie: u16 = if e.tsumogiri == Some(true) { 1 } else { 0 };
        let liqi: u16 = if *pending == Some(actor) {
            *pending = None;
            1
        } else {
            0
        };
        prog.push([actor as u16, 1 + k37 as u16, moqie, liqi, 4]);
    } else if opt_str_is(&e.event_type, "chi") || opt_str_is(&e.event_type, "pon") {
        if pai_missing {
            return ;
        }
        let pai = match &e.pai {
            Some(p) => p,
            None => {
                return ;
            },
        };
        let called = match mjai_to_tid(pai.as_str()) {
            Some(t) => t,
            None => {
                return ;
            },
        };
        let consumed = parse_consumed_tids(&e.consumed);
        if consumed.len() < 2 {
            return ;
        }
        if opt_str_is(&e.event_type, "chi") {
            let enc = encode_chi(consumed.as_slice(), called);
            push_call(prog, e, 38 + enc);
        } else {
            let enc = encode_pon(consumed.as_slice(), called);
            push_call(prog, e, 128 + enc);
        }
    } else if opt_str_is(&e.event_type, "daiminkan") {
        if pai_missing {
            return ;
        }
        let pai = match &e.pai {
            Some(p) => p,
            None => {
                return ;
            },
        };
        let k37 = match mjai_to_tid(pai.as_str()) {
            Some(t) => tile_id_to_kan37(t as u32),
            None => {
                return ;
            },
        };
        push_call(prog, e, 168 + k37 as u16);
    } else if opt_str_is(&e.event_type, "ankan") {
        let consumed = parse_consumed_tids(&e.consumed);
        if consumed.len() == 0 {
            return ;
        }
        let tile34 = consumed[0] / 4;
        prog.push([actor as u16, 205 + tile34 as u16, 2, 2, 4]);
    } else if opt_str_is(&e.event_type, "kakan") {
        if pai_missing {
            return ;
        }
        let pai = match &e.pai {
            Some(p) => p,
            None => {
                return ;
            },
        };
        let k37 = match mjai_to_tid(pai.as_str()) {
            Some(t) => tile_id_to_kan37(t as u32),
            None => {
                return ;
            },
        };
        prog.push([actor as u16, 239 + k37 as u16, 2, 2, 4]);
    }
}

/// The progression tuples of parsed events (see [`spec_progression`]).
pub fn progression_from_events(events: &Vec<Option<MjaiEventFields>>) -> (r: Vec<[u16; 5]>)
    ensures
        r@ == spec_progression(events_view(events@)),
{
    let mut prog: Vec<[u16; 5]> = Vec::new();
    let mut pending: Option<u8> = None;
    let mut i: usize = 0;
    while i < events.len()
        invariant
            0 <= i <= events@.len(),
            (prog@, pending) == prog_run(events_view(events@.take(i as int))),
            prog@.len() < MAX_PROG_LEN,
        decreases events@.len() - i,
    {
        proof {
            lemma_events_view_take(events@, i + 1);
        }
        progression_step(&mut prog, &mut pending, &events[i]);
        i = i + 1;
        if prog.len() >= MAX_PROG_LEN {
            proof {
                assert(events_view(events@).take(i as int) =~= events_view(events@.take(i as int)));
                lemma_prog_run_saturates(events_view(events@), i as int);
            }
            return prog;
        }
    }
    assert(events@.take(i as int) =~= events@);
    prog
}

proof fn lemma_prog_run_saturates(evs: Seq<Option<MjaiEventView>>, i: int)
    requires
        0 <= i <= evs.len(),
        prog_run(evs.take(i)).0.len() >= MAX_PROG_LEN,
    ensures
        prog_run(evs) == prog_run(evs.take(i)),
    decreases evs.len() - i,
{
    if i < evs.len() {
        assert(evs.take(i + 1).drop_last() =~= evs.take(i));
        lemma_prog_run_saturates(evs, i + 1);
    } else {
        assert(evs.take(i) =~= evs);
    }
}

impl Observation {
    /// Encode progression (action history) as variable-length 5-tuples.
    ///
    /// Each tuple: (actor, type, moqie, liqi, from)
    /// - actor: 0-3 (seats), 4 (marker/padding)
    /// - type: 0-276
    /// - moqie: 0=tedashi, 1=tsumogiri, 2=N/A
    /// - liqi: 0=no riichi, 1=with riichi, 2=N/A
    /// - from: 0-2 (relative seat), 4=N/A
    pub fn encode_seq_progression(&self) -> (r: Vec<[u16; 5]>)
        ensures
            r@ == spec_progression(parsed_events(self.events@)),
    {
        let parsed = parse_mjai_events(&self.events);
        assert(events_view(parsed@) =~= parsed_events(self.events@));
        progression_from_events(&parsed)
    }
}


// ── Candidate features ───────────────────────────────────────────────────────

/// A candidate answered by someone else's discard: type, two "not applicable"
/// markers, and the discarder's seat relative to the player (none without one).
pub open spec fn response_tuple(type_idx: int, pid: u8, last_discard_actor: Option<u8>) -> Option<
    [u16; 4],
> {
    match last_discard_actor {
        Some(target) => Some(
            [type_idx as u16, 2u16, 2u16, spec_relative_from(pid, target) as u16],
        ),
        None => None,
    }
}

/// The candidate 4-tuple of one legal action (type, moqie, liqi, from), given
/// the tile the player last drew and the actor of the last discard.
///
/// Discards give their kan37 index, with moqie 1 where the tile is the drawn
/// one; riichi and kita give none; ankan gives 37 + the type of its first
/// consumed tile; kakan 71 + kan37 of its tile (or of its first consumed tile);
/// tsumo, kyushu kyuhai and pass give 108, 109, 110; chi and pon (with at least
/// two consumed tiles) give 111/201 + the pattern code, daiminkan 241 + kan37,
/// ron 278, each with the seat of the last discard relative to the player.
pub open spec fn spec_candidate(
    a: Action,
    pid: u8,
    drawn: Option<u8>,
    last_discard_actor: Option<u8>,
) -> Option<[u16; 4]> {
    match a.action_type {
        ActionType::Discard => match a.tile {
            Some(t) => Some(
                [
                    spec_tile_id_to_kan37(t as u32) as u16,
                    if drawn == Some(t) {
                        1u16
                    } else {
                        0u16
                    },
                    2u16,
                    3u16,
                ],
            ),
            None => None,
        },
        ActionType::Riichi => None,
        ActionType::Ankan => if a.consume_tiles@.len() > 0 {
            Some([(37 + a.consume_tiles@[0] / 4) as u16, 2u16, 2u16, 3u16])
        } else {
            None
        },
        ActionType::Kakan => {
            let t = match a.tile {
                Some(t) => Some(t),
                None => if a.consume_tiles@.len() > 0 {
                    Some(a.consume_tiles@[0])
                } else {
                    None
                },
            };
            match t {
                Some(t) => Some([(71 + spec_tile_id_to_kan37(t as u32)) as u16, 2u16, 2u16, 3u16]),
                None => None,
            }
        },
        ActionType::Tsumo => Some([108u16, 2u16, 2u16, 3u16]),
        ActionType::KyushuKyuhai => Some([109u16, 2u16, 2u16, 3u16]),
        ActionType::Pass => Some([110u16, 2u16, 2u16, 3u16]),
        ActionType::Chi => match a.tile {
            Some(t) => if a.consume_tiles@.len() < 2 {
                None
            } else {
                response_tuple(111 + spec_encode_chi(a.consume_tiles@, t), pid, last_discard_actor)
            },
            None => None,
        },
        ActionType::Pon => match a.tile {
            Some(t) => if a.consume_tiles@.len() < 2 {
                None
            } else {
                response_tuple(201 + spec_encode_pon(a.consume_tiles@, t), pid, last_discard_actor)
            },
            None => None,
        },
        ActionType::Daiminkan => match a.tile {
            Some(t) => response_tuple(
                241 + spec_tile_id_to_kan37(t as u32),
                pid,
                last_discard_actor,
            ),
            None => None,
        },
        ActionType::Ron => response_tuple(278, pid, last_discard_actor),
        ActionType::Kita => None,
    }
}

/// Whether a riichi declaration is among the legal actions.
pub open spec fn spec_has_riichi(actions: Seq<Action>) -> bool {
    exists|i: int| 0 <= i < actions.len() && #[trigger] actions[i].action_type == ActionType::Riichi
}

/// The riichi-declaring twin of a discard candidate: where riichi is legal, a
/// discard of tile `t` is also offered as discard + riichi, liqi 1.
pub open spec fn spec_riichi_candidate(a: Action, drawn: Option<u8>, has_riichi: bool) -> Option<
    [u16; 4],
> {
    if has_riichi && a.action_type == ActionType::Discard {
        match a.tile {
            Some(t) => Some(
                [
                    spec_tile_id_to_kan37(t as u32) as u16,
                    if drawn == Some(t) {
                        1u16
                    } else {
                        0u16
                    },
                    1u16,
                    3u16,
                ],
            ),
            None => None,
        }
    } else {
        None
    }
}

/// The candidate tuples of one action: its own tuple (if any), then its
/// riichi-declaring twin (if any).
pub open spec fn action_candidates(
    a: Action,
    pid: u8,
    drawn: Option<u8>,
    last_discard_actor: Option<u8>,
    has_riichi: bool,
) -> Seq<[u16; 4]> {
    let own = match spec_candidate(a, pid, drawn, last_discard_actor) {
        Some(t) => seq![t],
        None => seq![],
    };
    match spec_riichi_candidate(a, drawn, has_riichi) {
        Some(t) => own.push(t),
        None => own,
    }
}

/// The candidate tuples of the actions, in order.
pub open spec fn spec_candidates(
    actions: Seq<Action>,
    pid: u8,
    drawn: Option<u8>,
    last_discard_actor: Option<u8>,
    has_riichi: bool,
) -> Seq<[u16; 4]>
    decreases actions.len(),
{
    if actions.len() == 0 {
        seq![]
    } else {
        spec_candidates(actions.drop_last(), pid, drawn, last_discard_actor, has_riichi)
            + action_candidates(actions.last(), pid, drawn, last_discard_actor, has_riichi)
    }
}

fn response(type_idx: u16, pid: u8, last_discard_actor: Option<u8>) -> (r: Option<[u16; 4]>)
    ensures
        r == response_tuple(type_idx as int, pid, last_discard_actor),
{
    match last_discard_actor {
        Some(target) => {
            let rel = relative_from(pid, target);
            Some([type_idx, 2, 2, rel as u16])
        },
        None => None,
    }
}

/// Encode a single legal action as a candidate 4-tuple (see [`spec_candidate`]).
pub fn encode_candidate_action(
    action: &Action,
    pid: u8,
    drawn: Option<u8>,
    last_discard_actor: Option<u8>,
) -> (r: Option<[u16; 4]>)
    ensures
        r == spec_candidate(*action, pid, drawn, last_discard_actor),
{
    match action.action_type {
        ActionType::Discard => {
            let tile = match action.tile {
                Some(t) => t,
                None => {
                    return None;
                },
            };
            let k37 = tile_id_to_kan37(tile as u32);
            let moqie: u16 = if is_tsumogiri_candidate(drawn, tile) { 1 } else { 0 };
            Some([k37 as u16, moqie, 2, 3])
        },
        ActionType::Riichi => None,
        ActionType::Ankan => {
            if action.consume_tiles.len() == 0 {
                return None;
            }
            let tile34 = action.consume_tiles[0] / 4;
            Some([37 + tile34 as u16, 2, 2, 3])
        },
        ActionType::Kakan => {
            let tile = match action.tile {
                Some(t) => t,
                None => {
                    if action.consume_tiles.len() == 0 {
                        return None;
                    }
                    action.consume_tiles[0]
                },
            };
            let k37 = tile_id_to_kan37(tile as u32);
            Some([71 + k37 as u16, 2, 2, 3])
        },
        ActionType::Tsumo => Some([108, 2, 2, 3]),
        ActionType::KyushuKyuhai => Some([109, 2, 2, 3]),
        ActionType::Pass => Some([110, 2, 2, 3]),
        ActionType::Chi => {
            let called = match action.tile {
                Some(t) => t,
                None => {
                    return None;
                },
            };
            if action.consume_tiles.len() < 2 {
                return None;
            }
            let enc = encode_chi(action.consume_tiles.as_slice(), called);
            response(111 + enc, pid, last_discard_actor)
        },
        ActionType::Pon => {
            let called = match action.tile {
                Some(t) => t,
                None => {
                    return None;
                },
            };
            if action.consume_tiles.len() < 2 {
                return None;
            }
            let enc = encode_pon(action.consume_tiles.as_slice(), called);
            response(201 + enc, pid, last_discard_actor)
        },
        ActionType::Daiminkan => {
            let tile = match action.tile {
                Some(t) => t,
                None => {
                    return None;
                },
            };
            let k37 = tile_id_to_kan37(tile as u32);
            response(241 + k37 as u16, pid, last_discard_actor)
        },
        ActionType::Ron => response(278, pid, last_discard_actor),
        ActionType::Kita => None,
    }
}

/// Whether discarding `tile` would be tsumogiri: it is the drawn tile.
pub fn is_tsumogiri_candidate(drawn: Option<u8>, tile: u8) -> (r: bool)
    ensures
        r == (drawn == Some(tile)),
{
    match drawn {
        Some(d) => d == tile,
        None => false,
    }
}

/// The riichi-declaring twin of a discard candidate (see [`spec_riichi_candidate`]).
pub fn riichi_discard_candidate(action: &Action, drawn: Option<u8>, has_riichi: bool) -> (r: Option<
    [u16; 4],
>)
    ensures
        r == spec_riichi_candidate(*action, drawn, has_riichi),
{
    if has_riichi && action.action_type == ActionType::Discard {
        match action.tile {
            Some(t) => {
                let k37 = tile_id_to_kan37(t as u32);
                let moqie: u16 = if is_tsumogiri_candidate(drawn, t) { 1 } else { 0 };
                Some([k37 as u16, moqie, 1, 3])
            },
            None => None,
        }
    } else {
        None
    }
}

/// Whether a riichi declaration is among `actions`.
pub fn has_riichi_action(actions: &Vec<Action>) -> (r: bool)
    ensures
        r == spec_has_riichi(actions@),
{
    let mut i: usize = 0;
    while i < actions.len()
        invariant
            0 <= i <= actions@.len(),
            forall|j: int| 0 <= j < i ==> actions@[j].action_type != ActionType::Riichi,
        decreases actions@.len() - i,
    {
        if actions[i].action_type == ActionType::Riichi {
            assert(actions@[i as int].action_type == ActionType::Riichi);
            return true;
        }
        i = i + 1;
    }
    false
}

/// The candidate tuples of `actions` (see [`spec_candidates`]).
pub fn candidates_from(
    actions: &Vec<Action>,
    pid: u8,
    drawn: Option<u8>,
    last_discard_actor: Option<u8>,
    has_riichi: bool,
) -> (r: Vec<[u16; 4]>)
    ensures
        r@ == spec_candidates(actions@, pid, drawn, last_discard_actor, has_riichi),
{
    let mut cands: Vec<[u16; 4]> = Vec::new();
    let mut i: usize = 0;
    while i < actions.len()
        invariant
            0 <= i <= actions@.len(),
            cands@ == spec_candidates(actions@.take(i as int), pid, drawn, last_discard_actor, has_riichi),
        decreases actions@.len() - i,
    {
        assert(actions@.take(i + 1).drop_last() =~= actions@.take(i as int));
        let ghost before = cands@;
        let own = encode_candidate_action(&actions[i], pid, drawn, last_discard_actor);
        let twin = riichi_discard_candidate(&actions[i], drawn, has_riichi);
        match own {
            Some(t) => cands.push(t),
            None => {},
        }
        match twin {
            Some(t) => cands.push(t),
            None => {},
        }
        assert(cands@ =~= before + action_candidates(actions@[i as int], pid, drawn, last_discard_actor, has_riichi));
        i = i + 1;
    }
    assert(actions@.take(i as int) =~= actions@);
    cands
}

impl Observation {
    /// Encode candidate (legal action) features as variable-length 4-tuples.
    ///
    /// Each tuple: (type, moqie, liqi, from)
    /// - type: 0-279
    /// - moqie: 0=tedashi, 1=tsumogiri, 2=N/A
    /// - liqi: 0=no, 1=yes, 2=N/A
    /// - from: 0-2 (relative seat), 3=self
    ///
    /// Riichi itself gives no tuple: where it is legal, each discard is offered
    /// a second time as discard + riichi (liqi 1), next to its plain tuple.
    pub fn encode_seq_candidates(&self) -> (r: Vec<[u16; 4]>)
        ensures
            r@ == spec_candidates(
                self._legal_actions@,
                self.player_id,
                spec_drawn_tile(parsed_events(self.events@), self.player_id),
                spec_last_discard_actor(parsed_events(self.events@)),
                spec_has_riichi(self._legal_actions@),
            ),
    {
        let parsed = parse_mjai_events(&self.events);
        assert(events_view(parsed@) =~= parsed_events(self.events@));
        let drawn = drawn_tile_from_events(&parsed, self.player_id);
        let last = last_discard_actor_from_events(&parsed);
        let has_riichi = has_riichi_action(&self._legal_actions);
        candidates_from(&self._legal_actions, self.player_id, drawn, last, has_riichi)
    }
}


// ── Numeric features ─────────────────────────────────────────────────────────

/// The four scores of a `start_kyoku` event: its first four `scores` items
/// (0 for an item that is not an integer, cast to `i32`), 0 for those missing.
pub open spec fn start_scores(scores: Option<Seq<Option<i64>>>) -> Seq<i32> {
    Seq::new(
        4,
        |i: int|
            match scores {
                Some(s) => if i < s.len() {
                    match s[i] {
                        Some(v) => v as i32,
                        None => 0i32,
                    }
                } else {
                    0i32
                },
                None => 0i32,
            },
    )
}

/// Honba, riichi deposits and scores at the start of the round: read from the
/// first `start_kyoku` event (absent integers count 0, cast to `u32`), or the
/// fallback values where there is none.
pub open spec fn spec_start_kyoku_info(
    evs: Seq<Option<MjaiEventView>>,
    honba: u32,
    sticks: u32,
    scores: Seq<i32>,
) -> (u32, u32, Seq<i32>)
    decreases evs.len(),
{
    if evs.len() == 0 {
        (honba, sticks, scores)
    } else {
        match evs[0] {
            Some(e) => if has_type(e, "start_kyoku"@) {
                (
                    match e.honba {
                        Some(h) => h as u32,
                        None => 0u32,
                    },
                    match e.kyotaku {
                        Some(k) => k as u32,
                        None => 0u32,
                    },
                    start_scores(e.scores),
                )
            } else {
                spec_start_kyoku_info(evs.drop_first(), honba, sticks, scores)
            },
            None => spec_start_kyoku_info(evs.drop_first(), honba, sticks, scores),
        }
    }
}

/// Round-start honba, deposits and scores from parsed events (see [`spec_start_kyoku_info`]).
pub fn start_kyoku_info_from_events(
    events: &Vec<Option<MjaiEventFields>>,
    honba: u32,
    sticks: u32,
    scores: [i32; 4],
) -> (r: (u32, u32, [i32; 4]))
    ensures
        (r.0, r.1, r.2@) == spec_start_kyoku_info(events_view(events@), honba, sticks, scores@),
{
    let mut i: usize = 0;
    assert(events_view(events@).skip(0) =~= events_view(events@));
    while i < events.len()
        invariant
            0 <= i <= events@.len(),
            spec_start_kyoku_info(events_view(events@), honba, sticks, scores@)
                == spec_start_kyoku_info(events_view(events@).skip(i as int), honba, sticks, scores@),
        decreases events@.len() - i,
    {
        assert(events_view(events@).skip(i as int).drop_first() =~= events_view(events@).skip(
            i + 1,
        ));
        assert(events_view(events@).skip(i as int)[0] == opt_event_view(events@[i as int]));
        match &events[i] {
            Some(e) => {
                if opt_str_is(&e.event_type, "start_kyoku") {
                    let h: u32 = match e.honba {
                        Some(h) => h as u32,
                        None => 0,
                    };
                    let k: u32 = match e.kyotaku {
                        Some(k) => k as u32,
                        None => 0,
                    };
                    let mut sc: [i32; 4] = [0i32; 4];
                    match &e.scores {
                        Some(arr) => {
                            let mut j: usize = 0;
                            while j < arr.len() && j < 4
                                invariant
                                    0 <= j <= 4,
                                    j <= arr@.len(),
                                    forall|q: int|
                                        0 <= q < 4 ==> sc@[q] == if q < j {
                                            match arr@[q] {
                                                Some(v) => v as i32,
                                                None => 0i32,
                                            }
                                        } else {
                                            0i32
                                        },
                                decreases 4 - j,
                            {
                                let v: i32 = match arr[j] {
                                    Some(v) => v as i32,
                                    None => 0,
                                };
                                sc[j] = v;
                                j = j + 1;
                            }
                        },
                        None => {},
                    }
                    assert(sc@ =~= start_scores(e@.scores));
                    return (h, k, sc);
                }
            },
            None => {},
        }
        i = i + 1;
    }
    (honba, sticks, scores)
}

/// The 12 numeric features as integers: current honba and deposits, the four
/// scores from the player's seat on, then the same at the start of the round.
pub open spec fn spec_numeric_features(
    o: Observation,
    start: (u32, u32, Seq<i32>),
) -> Seq<i64> {
    let pid = o.player_id as int;
    seq![
        o.honba as i64,
        o.riichi_sticks as i64,
        o.scores@[(pid + 0) % 4] as i64,
        o.scores@[(pid + 1) % 4] as i64,
        o.scores@[(pid + 2) % 4] as i64,
        o.scores@[(pid + 3) % 4] as i64,
        start.0 as i64,
        start.1 as i64,
        start.2[(pid + 0) % 4] as i64,
        start.2[(pid + 1) % 4] as i64,
        start.2[(pid + 2) % 4] as i64,
        start.2[(pid + 3) % 4] as i64,
    ]
}

impl Observation {
    /// Round-start honba, deposits and scores from the events, or the current ones.
    pub fn parse_start_kyoku_info(&self) -> (r: (u32, u32, [i32; 4]))
        ensures
            (r.0, r.1, r.2@) == spec_start_kyoku_info(
                parsed_events(self.events@),
                self.honba as u32,
                self.riichi_sticks,
                self.scores@,
            ),
    {
        let parsed = parse_mjai_events(&self.events);
        assert(events_view(parsed@) =~= parsed_events(self.events@));
        start_kyoku_info_from_events(&parsed, self.honba as u32, self.riichi_sticks, self.scores)
    }

    /// Numeric features, given the round-start values.
    pub fn numeric_features_with(&self, start: (u32, u32, [i32; 4])) -> (r: [i64; NUM_NUMERIC])
        ensures
            r@ == spec_numeric_features(*self, (start.0, start.1, start.2@)),
    {
        let mut out = [0i64; NUM_NUMERIC];
        let pid = self.player_id as usize;
        out[0] = self.honba as i64;
        out[1] = self.riichi_sticks as i64;
        let mut i: usize = 0;
        while i < 4
            invariant
                0 <= i <= 4,
                pid == self.player_id as usize,
                out@.len() == NUM_NUMERIC,
                out@[0] == self.honba as i64,
                out@[1] == self.riichi_sticks as i64,
                forall|k: int|
                    2 <= k < 2 + i ==> #[trigger] out@[k] == self.scores@[(pid + k - 2) % 4] as i64,
                forall|k: int|
                    8 <= k < 8 + i ==> #[trigger] out@[k] == start.2@[(pid + k - 8) % 4] as i64,
            decreases 4 - i,
        {
            let seat = (pid % 4 + i) % 4;
            assert(seat == (pid + i) % 4);
            out[2 + i] = self.scores[seat] as i64;
            out[8 + i] = start.2[seat] as i64;
            i = i + 1;
        }
        out[6] = start.0 as i64;
        out[7] = start.1 as i64;
        assert(out@ =~= spec_numeric_features(*self, (start.0, start.1, start.2@)));
        out
    }

    /// Encode numeric features as integers (see [`spec_numeric_features`]).
    ///
    /// [0] honba (current)
    /// [1] riichi deposits (current)
    /// [2-5] scores (self, right, opposite, left) relative to player_id
    /// [6] honba (round start)
    /// [7] riichi deposits (round start)
    /// [8-11] scores at round start (self-relative)
    pub fn numeric_features(&self) -> (r: [i64; NUM_NUMERIC])
        ensures
            r@ == spec_numeric_features(
                *self,
                spec_start_kyoku_info(
                    parsed_events(self.events@),
                    self.honba as u32,
                    self.riichi_sticks,
                    self.scores@,
                ),
            ),
    {
        let start = self.parse_start_kyoku_info();
        self.numeric_features_with(start)
    }
}


// ── Laws ─────────────────────────────────────────────────────────────────────

proof fn lemma_dora_tokens_bound(dora: Seq<u32>)
    ensures
        forall|k: int| 0 <= k < dora_tokens(dora).len() ==> 83 <= #[trigger] dora_tokens(dora)[k] <= 267,
    decreases dora.len(),
{
    if dora.len() > 0 {
        lemma_dora_tokens_bound(dora.drop_last());
        let prev = dora_tokens(dora.drop_last());
        assert(spec_tile_id_to_kan37(dora.last()) < 37);
        assert forall|k: int| 0 <= k < dora_tokens(dora).len() implies 83 <= #[trigger] dora_tokens(
            dora,
        )[k] <= 267 by {
            if k < prev.len() {
                assert(dora_tokens(dora)[k] == prev[k]);
            }
        }
    }
}

proof fn lemma_hand_tokens_bound(hand: Seq<u32>)
    ensures
        forall|k: int| 0 <= k < hand_tokens(hand).len() ==> 268 <= #[trigger] hand_tokens(hand)[k] <= 403,
    decreases hand.len(),
{
    if hand.len() > 0 {
        lemma_hand_tokens_bound(hand.drop_last());
        let prev = hand_tokens(hand.drop_last());
        assert forall|k: int| 0 <= k < hand_tokens(hand).len() implies 268 <= #[trigger] hand_tokens(
            hand,
        )[k] <= 403 by {
            if k < prev.len() {
                assert(hand_tokens(hand)[k] == prev[k]);
            }
        }
    }
}

/// Every sparse token lies inside the vocabulary and is never the padding token.
pub proof fn lemma_sparse_tokens_in_vocab(o: Observation, game_style: u8, drawn: Option<u8>)
    ensures
        forall|k: int|
            0 <= k < spec_sparse_tokens(o, game_style, drawn).len() ==> #[trigger] spec_sparse_tokens(
                o,
                game_style,
                drawn,
            )[k] < SPARSE_PAD,
{
    lemma_dora_tokens_bound(o.dora_indicators@);
    lemma_hand_tokens_bound(o.hands@[o.player_id as int]@);
    let head = seq![
        min_int(game_style as int, 1) as u16,
        (2 + min_int(o.player_id as int, 3)) as u16,
        (6 + min_int(o.round_wind as int, 2)) as u16,
        (9 + min_int(o.oya as int, 3)) as u16,
        (13 + min_int(spec_tiles_remaining(o), 69)) as u16,
    ];
    lemma_meld_tiles_used_nonneg(o.melds@[0]@);
    lemma_meld_tiles_used_nonneg(o.melds@[1]@);
    lemma_meld_tiles_used_nonneg(o.melds@[2]@);
    lemma_meld_tiles_used_nonneg(o.melds@[3]@);
    assert(0 <= spec_tiles_remaining(o) <= 122);
    assert forall|k: int|
        0 <= k < spec_sparse_tokens(o, game_style, drawn).len() implies #[trigger] spec_sparse_tokens(
        o,
        game_style,
        drawn,
    )[k] < SPARSE_PAD by {
        let d = dora_tokens(o.dora_indicators@);
        let h = hand_tokens(o.hands@[o.player_id as int]@);
        if k >= head.len() + d.len() + h.len() {
            if let Some(t) = drawn {
                assert(spec_tile_id_to_kan37(t as u32) < 37);
            }
        } else if k >= head.len() + d.len() {
            assert(spec_sparse_tokens(o, game_style, drawn)[k] == h[k - head.len() - d.len()]);
        } else if k >= head.len() {
            assert(spec_sparse_tokens(o, game_style, drawn)[k] == d[k - head.len()]);
        }
    }
}

/// A progression tuple whose type, moqie and liqi lie inside their vocabularies.
pub open spec fn prog_tuple_in_vocab(t: [u16; 5]) -> bool {
    &&& t[1] < PROG_DIMS[1]
    &&& t[2] < PROG_DIMS[2]
    &&& t[3] < PROG_DIMS[3]
}

proof fn lemma_consumed_tids_bound(items: Seq<Option<Seq<char>>>)
    ensures
        forall|k: int|
            0 <= k < consumed_list_tids(items).len() ==> #[trigger] consumed_list_tids(items)[k] < 136,
    decreases items.len(),
{
    if items.len() > 0 {
        lemma_consumed_tids_bound(items.drop_last());
        let prev = consumed_list_tids(items.drop_last());
        match items.last() {
            Some(x) => {
                crate::parser::lemma_mjai_tid_bound(x);
            },
            None => {},
        }
        assert forall|k: int| 0 <= k < consumed_list_tids(items).len() implies #[trigger] consumed_list_tids(
            items,
        )[k] < 136 by {
            if k < prev.len() {
                assert(consumed_list_tids(items)[k] == prev[k]);
            }
        }
    }
}

proof fn lemma_prog_run_in_vocab(evs: Seq<Option<MjaiEventView>>)
    ensures
        prog_run(evs).0.len() <= MAX_PROG_LEN,
        forall|k: int|
            0 <= k < prog_run(evs).0.len() ==> prog_tuple_in_vocab(#[trigger] prog_run(evs).0[k]),
    decreases evs.len(),
{
    if evs.len() > 0 {
        lemma_prog_run_in_vocab(evs.drop_last());
        let prev = prog_run(evs.drop_last());
        if prev.0.len() < MAX_PROG_LEN {
            match evs.last() {
                Some(e) => {
                    let pai = pai_of(e);
                    crate::parser::lemma_mjai_tid_bound(pai);
                    match spec_mjai_to_tid(pai) {
                        Some(t) => {
                            assert(spec_tile_id_to_kan37(t as u32) < 37);
                            match e.consumed {
                                Some(items) => {
                                    lemma_consumed_tids_bound(items);
                                    let consumed = spec_consumed_tids(e.consumed);
                                    lemma_chi_code_bounded(consumed, t);
                                    lemma_pon_codes(consumed, t, consumed, t);
                                },
                                None => {
                                    lemma_chi_code_bounded(seq![], t);
                                    lemma_pon_codes(seq![], t, seq![], t);
                                },
                            }
                        },
                        None => {},
                    }
                    match e.consumed {
                        Some(items) => {
                            lemma_consumed_tids_bound(items);
                        },
                        None => {},
                    }
                },
                None => {},
            }
            let next = prog_run(evs);
            assert forall|k: int| 0 <= k < next.0.len() implies prog_tuple_in_vocab(
                #[trigger] next.0[k],
            ) by {
                if k < prev.0.len() {
                    assert(next.0[k] == prev.0[k]);
                }
            }
        }
    }
}

/// The progression holds at most `MAX_PROG_LEN` tuples, and in each the type,
/// moqie and liqi lie inside their vocabularies.
pub proof fn lemma_progression_in_vocab(evs: Seq<Option<MjaiEventView>>)
    ensures
        spec_progression(evs).len() <= MAX_PROG_LEN,
        forall|k: int|
            0 <= k < spec_progression(evs).len() ==> prog_tuple_in_vocab(
                #[trigger] spec_progression(evs)[k],
            ),
{
    lemma_prog_run_in_vocab(evs);
}

/// Every tile that an action names is a real tile (below 136).
pub open spec fn action_tiles_valid(a: Action) -> bool {
    &&& (a.tile matches Some(t) ==> t < 136)
    &&& forall|i: int| 0 <= i < a.consume_tiles@.len() ==> a.consume_tiles@[i] < 136
}

proof fn lemma_dora_tokens_len(dora: Seq<u32>)
    ensures
        dora_tokens(dora).len() == min_int(dora.len() as int, 5),
    decreases dora.len(),
{
    if dora.len() > 0 {
        lemma_dora_tokens_len(dora.drop_last());
    }
}

proof fn lemma_hand_tokens_len(hand: Seq<u32>)
    ensures
        hand_tokens(hand).len() <= hand.len(),
    decreases hand.len(),
{
    if hand.len() > 0 {
        lemma_hand_tokens_len(hand.drop_last());
    }
}

/// The sparse list holds at most 25 tokens when the player's hand holds at
/// most 14 tiles: five header tokens, at most five dora tokens, one per hand
/// tile and at most one drawn-tile token.
pub proof fn lemma_sparse_token_count(o: Observation, game_style: u8, drawn: Option<u8>)
    requires
        o.player_id < 4,
    ensures
        spec_sparse_tokens(o, game_style, drawn).len() <= 11 + o.hands@[o.player_id as int]@.len(),
        o.hands@[o.player_id as int]@.len() <= 14 ==> spec_sparse_tokens(o, game_style, drawn).len()
            <= 25,
{
    lemma_dora_tokens_len(o.dora_indicators@);
    lemma_hand_tokens_len(o.hands@[o.player_id as int]@);
}

/// The game style only counts as 0 (tonpuusen) or 1 (hanchan): every style
/// from 1 up gives the tokens of style 1.
pub proof fn lemma_game_style_saturates(o: Observation, game_style: u8, drawn: Option<u8>)
    requires
        game_style >= 1,
    ensures
        spec_sparse_tokens(o, game_style, drawn) == spec_sparse_tokens(o, 1, drawn),
{
    assert(spec_sparse_tokens(o, game_style, drawn) =~= spec_sparse_tokens(o, 1, drawn));
}

/// A candidate tuple whose type, moqie and liqi lie inside their vocabularies.
pub open spec fn cand_tuple_in_vocab(t: [u16; 4]) -> bool {
    &&& t[0] < CAND_DIMS[0]
    &&& t[1] < CAND_DIMS[1]
    &&& t[2] < CAND_DIMS[2]
}

/// For actions on real tiles, each candidate's type, moqie and liqi lie inside
/// their vocabularies, and each action gives at most two candidates (the second
/// only for a discard while riichi is legal).
pub proof fn lemma_candidates_in_vocab(
    actions: Seq<Action>,
    pid: u8,
    drawn: Option<u8>,
    last_discard_actor: Option<u8>,
    has_riichi: bool,
)
    requires
        forall|i: int| 0 <= i < actions.len() ==> action_tiles_valid(#[trigger] actions[i]),
    ensures
        spec_candidates(actions, pid, drawn, last_discard_actor, has_riichi).len() <= 2 * actions.len(),
        !has_riichi ==> spec_candidates(actions, pid, drawn, last_discard_actor, has_riichi).len()
            <= actions.len(),
        forall|k: int|
            0 <= k < spec_candidates(actions, pid, drawn, last_discard_actor, has_riichi).len()
                ==> cand_tuple_in_vocab(
                #[trigger] spec_candidates(actions, pid, drawn, last_discard_actor, has_riichi)[k],
            ),
    decreases actions.len(),
{
    if actions.len() > 0 {
        let prefix = actions.drop_last();
        assert forall|i: int| 0 <= i < prefix.len() implies action_tiles_valid(
            #[trigger] prefix[i],
        ) by {
            assert(prefix[i] == actions[i]);
        }
        lemma_candidates_in_vocab(prefix, pid, drawn, last_discard_actor, has_riichi);
        let a = actions.last();
        assert(action_tiles_valid(actions[actions.len() - 1]));
        match a.tile {
            Some(t) => {
                assert(spec_tile_id_to_kan37(t as u32) < 37);
                lemma_chi_code_bounded(a.consume_tiles@, t);
                lemma_pon_codes(a.consume_tiles@, t, a.consume_tiles@, t);
            },
            None => {},
        }
        if a.consume_tiles@.len() > 0 {
            let f = a.consume_tiles@[0];
            assert(f < 136);
            assert(spec_tile_id_to_kan37(f as u32) < 37);
        }
        let prev = spec_candidates(prefix, pid, drawn, last_discard_actor, has_riichi);
        let mine = action_candidates(a, pid, drawn, last_discard_actor, has_riichi);
        let next = spec_candidates(actions, pid, drawn, last_discard_actor, has_riichi);
        assert(next == prev + mine);
        assert forall|k: int| 0 <= k < mine.len() implies cand_tuple_in_vocab(#[trigger] mine[k]) by {}
        assert forall|k: int| 0 <= k < next.len() implies cand_tuple_in_vocab(#[trigger] next[k]) by {
            if k < prev.len() {
                assert(next[k] == prev[k]);
            } else {
                assert(next[k] == mine[k - prev.len()]);
            }
        }
    }
}

/// A riichi marks exactly one discard. One step of the progression keeps the
/// tuples before it and adds at most one; a tuple it adds with liqi 1 is a
/// discard (type 1..37) of the seat whose riichi was pending, and after it no
/// riichi is pending; a discard of the pending seat always gets liqi 1; and a
/// step that adds a tuple with liqi other than 1 leaves the pending riichi as
/// it was.
pub proof fn lemma_riichi_marks_one_discard(
    p: Seq<[u16; 5]>,
    pending: Option<u8>,
    ev: Option<MjaiEventView>,
)
    ensures
        ({
            let (p2, pend2) = prog_step(p, pending, ev);
            &&& p2.len() == p.len() || p2.len() == p.len() + 1
            &&& p2.take(p.len() as int) == p
            &&& (p2.len() == p.len() + 1 && p2.last()[3] == 1) ==> {
                &&& 1 <= p2.last()[1] <= 37
                &&& pending == Some(p2.last()[0] as u8)
                &&& pend2 is None
            }
            &&& (p2.len() == p.len() + 1 && 1 <= p2.last()[1] <= 37 && pending == Some(
                p2.last()[0] as u8,
            )) ==> p2.last()[3] == 1
            &&& (p2.len() == p.len() + 1 && p2.last()[3] != 1) ==> pend2 == pending
        }),
{
    let (p2, pend2) = prog_step(p, pending, ev);
    assert(p.push([0u16, 0u16, 0u16, 0u16, 0u16]).take(p.len() as int) =~= p);
    match ev {
        None => {},
        Some(e) => {
            let pai = pai_of(e);
            crate::parser::lemma_mjai_tid_bound(pai);
            match spec_mjai_to_tid(pai) {
                Some(t) => {
                    assert(spec_tile_id_to_kan37(t as u32) < 37);
                    match e.consumed {
                        Some(items) => {
                            lemma_consumed_tids_bound(items);
                            let consumed = spec_consumed_tids(e.consumed);
                            lemma_chi_code_bounded(consumed, t);
                            lemma_pon_codes(consumed, t, consumed, t);
                        },
                        None => {
                            lemma_chi_code_bounded(seq![], t);
                            lemma_pon_codes(seq![], t, seq![], t);
                        },
                    }
                },
                None => {},
            }
            match e.consumed {
                Some(items) => {
                    lemma_consumed_tids_bound(items);
                },
                None => {},
            }
            assert(p2.take(p.len() as int) =~= p);
        },
    }
}

} // verus!
