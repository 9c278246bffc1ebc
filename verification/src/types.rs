//! Core mahjong data types: hands, melds, winds, win conditions and results.

use vstd::prelude::*;

verus! {

/// Number of distinct tile types (no red distinction).
pub const TILE_MAX: usize = 34;

/// Number of entries of `s` equal to `k`.
pub open spec fn count_of(s: Seq<u8>, k: int) -> nat
    decreases s.len(),
{
    if s.len() == 0 {
        0
    } else {
        count_of(s.drop_last(), k) + if s.last() as int == k {
            1nat
        } else {
            0nat
        }
    }
}

/// A hand representation using a histogram of tile types (0-33).
#[derive(Debug, Clone)]
pub struct Hand {
    pub counts: [u8; TILE_MAX],
}

impl Hand {
    /// Builds the histogram of `tiles` (tile types; values of 34 and more are ignored).
    pub fn new(tiles: Option<Vec<u8>>) -> (h: Self)
        requires
            tiles matches Some(ts) ==> forall|k: int| 0 <= k < 34 ==> count_of(ts@, k) <= 255,
        ensures
            forall|k: int|
                0 <= k < 34 ==> h.counts@[k] == match tiles {
                    Some(ts) => count_of(ts@, k),
                    None => 0nat,
                },
    {
        let mut h = Hand::default();
        match tiles {
            Some(ts) => {
                let mut i: usize = 0;
                while i < ts.len()
                    invariant
                        0 <= i <= ts@.len(),
                        forall|k: int| 0 <= k < 34 ==> count_of(ts@, k) <= 255,
                        forall|k: int| 0 <= k < 34 ==> h.counts@[k] == count_of(ts@.take(i as int), k),
                    decreases ts@.len() - i,
                {
                    proof {
                        assert(ts@.take(i + 1).drop_last() =~= ts@.take(i as int));
                        lemma_count_of_prefix_le(ts@, i + 1, ts@[i as int] as int);
                    }
                    h.add(ts[i]);
                    i = i + 1;
                }
                assert(ts@.take(i as int) =~= ts@);
            },
            None => {},
        }
        h
    }

    /// Counts one more tile of type `t` (values of 34 and more are ignored).
    pub fn add(&mut self, t: u8)
        requires
            (t as int) < 34 ==> old(self).counts@[t as int] < 255,
        ensures
            final(self).counts@ == spec_hand_add(old(self).counts@, t),
    {
        if (t as usize) < TILE_MAX {
            let c = self.counts[t as usize];
            self.counts[t as usize] = c + 1;
        }
    }

    /// Counts one tile fewer of type `t`, where there is one.
    pub fn remove(&mut self, t: u8)
        ensures
            final(self).counts@ == spec_hand_remove(old(self).counts@, t),
    {
        if (t as usize) < TILE_MAX && self.counts[t as usize] > 0 {
            let c = self.counts[t as usize];
            self.counts[t as usize] = c - 1;
        }
    }
}

/// The counts after adding a tile of type `t`: one more of `t` where `t` is a
/// tile type, unchanged otherwise.
pub open spec fn spec_hand_add(c: Seq<u8>, t: u8) -> Seq<u8> {
    if (t as int) < 34 {
        c.update(t as int, (c[t as int] + 1) as u8)
    } else {
        c
    }
}

/// The counts after removing a tile of type `t`: one fewer of `t` where there
/// is one, unchanged otherwise.
pub open spec fn spec_hand_remove(c: Seq<u8>, t: u8) -> Seq<u8> {
    if (t as int) < 34 && c[t as int] > 0 {
        c.update(t as int, (c[t as int] - 1) as u8)
    } else {
        c
    }
}

/// Removing a tile undoes adding it.
pub proof fn lemma_remove_undoes_add(c: Seq<u8>, t: u8)
    requires
        c.len() == 34,
        (t as int) < 34 ==> c[t as int] < 255,
    ensures
        spec_hand_remove(spec_hand_add(c, t), t) == c,
{
    if (t as int) < 34 {
        assert(spec_hand_remove(spec_hand_add(c, t), t) =~= c);
    }
}

/// Adding a tile undoes removing one that the hand holds.
pub proof fn lemma_add_undoes_remove(c: Seq<u8>, t: u8)
    requires
        c.len() == 34,
        (t as int) < 34,
        c[t as int] > 0,
    ensures
        spec_hand_add(spec_hand_remove(c, t), t) == c,
{
    assert(spec_hand_add(spec_hand_remove(c, t), t) =~= c);
}

proof fn lemma_count_of_prefix_le(s: Seq<u8>, n: int, k: int)
    requires
        0 <= n <= s.len(),
    ensures
        count_of(s.take(n), k) <= count_of(s, k),
    decreases s.len() - n,
{
    if n < s.len() {
        lemma_count_of_prefix_le(s, n + 1, k);
        assert(s.take(n + 1).drop_last() =~= s.take(n));
    } else {
        assert(s.take(n) =~= s);
    }
}

impl Default for Hand {
    fn default() -> (h: Self)
        ensures
            forall|k: int| 0 <= k < 34 ==> h.counts@[k] == 0,
    {
        let h = Hand { counts: [0u8; TILE_MAX] };
        h
    }
}


/// Kinds of melds.
#[derive(Debug, Clone, Copy, PartialEq, Eq, Structural)]
pub enum MeldType {
    Chi,
    Pon,
    Daiminkan,
    Ankan,
    Kakan,
}

/// Represents wind directions in mahjong, used for player seats and round wind.
#[derive(Debug, Clone, Copy, PartialEq, Eq, Structural, Default)]
pub enum Wind {
    #[default]
    East,
    South,
    West,
    North,
}

/// The wind of a number: its remainder by 4, East first.
pub open spec fn spec_wind_of(val: u8) -> Wind {
    if val % 4 == 0 {
        Wind::East
    } else if val % 4 == 1 {
        Wind::South
    } else if val % 4 == 2 {
        Wind::West
    } else {
        Wind::North
    }
}

impl From<u8> for Wind {
    fn from(val: u8) -> (w: Wind) {
        let r = val % 4;
        if r == 0 {
            Wind::East
        } else if r == 1 {
            Wind::South
        } else if r == 2 {
            Wind::West
        } else {
            Wind::North
        }
    }
}

impl vstd::std_specs::convert::FromSpecImpl<u8> for Wind {
    open spec fn obeys_from_spec() -> bool {
        true
    }

    open spec fn from_spec(v: u8) -> Wind {
        spec_wind_of(v)
    }
}

/// A meld: its kind, its tiles (136-tile ids), whether it is open, the seat it
/// was called from, and the tile claimed from a discard (for chi/pon/daiminkan).
#[derive(Debug, Clone)]
pub struct Meld {
    pub meld_type: MeldType,
    pub tiles: Vec<u8>,
    pub opened: bool,
    pub from_who: i8,
    /// The tile claimed from another player's discard (for chi/pon/daiminkan).
    /// None for ankan/kakan or melds not involving a discard claim.
    pub called_tile: Option<u8>,
}

impl Meld {
    /// Builds a meld from its parts.
    pub fn new(
        meld_type: MeldType,
        tiles: Vec<u8>,
        opened: bool,
        from_who: i8,
        called_tile: Option<u8>,
    ) -> (m: Self)
        ensures
            m.meld_type == meld_type,
            m.tiles@ == tiles@,
            m.opened == opened,
            m.from_who == from_who,
            m.called_tile == called_tile,
    {
        Meld { meld_type, tiles, opened, from_who, called_tile }
    }

    /// The tiles of the meld, widened to `u32`.
    pub fn tiles_as_u32(&self) -> (r: Vec<u32>)
        ensures
            r@.len() == self.tiles@.len(),
            forall|i: int| 0 <= i < r@.len() ==> r@[i] == self.tiles@[i] as u32,
    {
        let mut r: Vec<u32> = Vec::new();
        let mut i: usize = 0;
        while i < self.tiles.len()
            invariant
                0 <= i <= self.tiles@.len(),
                r@.len() == i,
                forall|j: int| 0 <= j < i ==> r@[j] == self.tiles@[j] as u32,
            decreases self.tiles@.len() - i,
        {
            r.push(self.tiles[i] as u32);
            i = i + 1;
        }
        r
    }

    /// Constructor with the keyword defaults of the scripting interface.
    pub fn py_new(
        meld_type: MeldType,
        tiles: Vec<u8>,
        opened: bool,
        from_who: i8,
        called_tile: Option<u8>,
    ) -> (m: Self)
        ensures
            m.meld_type == meld_type,
            m.tiles@ == tiles@,
            m.opened == opened,
            m.from_who == from_who,
            m.called_tile == called_tile,
    {
        Self::new(meld_type, tiles, opened, from_who, called_tile)
    }

    /// The kind of the meld.
    pub fn get_meld_type(&self) -> (r: MeldType)
        ensures
            r == self.meld_type,
    {
        self.meld_type
    }

    /// Replaces the kind of the meld.
    pub fn set_meld_type(&mut self, meld_type: MeldType)
        ensures
            final(self).meld_type == meld_type,
            final(self).tiles@ == old(self).tiles@,
            final(self).opened == old(self).opened,
            final(self).from_who == old(self).from_who,
            final(self).called_tile == old(self).called_tile,
    {
        self.meld_type = meld_type;
    }

    /// The tiles of the meld as `u32`.
    pub fn get_tiles(&self) -> (r: Vec<u32>)
        ensures
            r@.len() == self.tiles@.len(),
            forall|i: int| 0 <= i < r@.len() ==> r@[i] == self.tiles@[i] as u32,
    {
        self.tiles_as_u32()
    }

    /// Replaces the tiles of the meld.
    pub fn set_tiles(&mut self, tiles: Vec<u8>)
        ensures
            final(self).tiles@ == tiles@,
            final(self).meld_type == old(self).meld_type,
            final(self).opened == old(self).opened,
            final(self).from_who == old(self).from_who,
            final(self).called_tile == old(self).called_tile,
    {
        self.tiles = tiles;
    }

    /// Whether the meld is open.
    pub fn get_opened(&self) -> (r: bool)
        ensures
            r == self.opened,
    {
        self.opened
    }

    /// Sets whether the meld is open.
    pub fn set_opened(&mut self, opened: bool)
        ensures
            final(self).opened == opened,
            final(self).meld_type == old(self).meld_type,
            final(self).tiles@ == old(self).tiles@,
            final(self).from_who == old(self).from_who,
            final(self).called_tile == old(self).called_tile,
    {
        self.opened = opened;
    }

    /// The seat the meld was called from.
    pub fn get_from_who(&self) -> (r: i8)
        ensures
            r == self.from_who,
    {
        self.from_who
    }

    /// Replaces the seat the meld was called from.
    pub fn set_from_who(&mut self, from_who: i8)
        ensures
            final(self).from_who == from_who,
            final(self).meld_type == old(self).meld_type,
            final(self).tiles@ == old(self).tiles@,
            final(self).opened == old(self).opened,
            final(self).called_tile == old(self).called_tile,
    {
        self.from_who = from_who;
    }

    /// The tile claimed from a discard, if any.
    pub fn get_called_tile(&self) -> (r: Option<u8>)
        ensures
            r == self.called_tile,
    {
        self.called_tile
    }
}

/// The circumstances of a win that scoring depends on.
#[derive(Debug, Clone, Default)]
pub struct Conditions {
    pub tsumo: bool,
    pub riichi: bool,
    pub double_riichi: bool,
    pub ippatsu: bool,
    pub haitei: bool,
    pub houtei: bool,
    pub rinshan: bool,
    pub player_wind: Wind,
    pub round_wind: Wind,
    pub chankan: bool,
    pub tsumo_first_turn: bool,
    pub riichi_sticks: u32,
    pub honba: u32,
}

impl Conditions {
    /// Builds the conditions from each of their fields.
    pub fn py_new(
        tsumo: bool,
        riichi: bool,
        double_riichi: bool,
        ippatsu: bool,
        haitei: bool,
        houtei: bool,
        rinshan: bool,
        chankan: bool,
        tsumo_first_turn: bool,
        player_wind: Wind,
        round_wind: Wind,
        riichi_sticks: u32,
        honba: u32,
    ) -> (c: Self)
        ensures
            c == (Conditions {
                tsumo,
                riichi,
                double_riichi,
                ippatsu,
                haitei,
                houtei,
                rinshan,
                player_wind,
                round_wind,
                chankan,
                tsumo_first_turn,
                riichi_sticks,
                honba,
            }),
    {
        Conditions {
            tsumo,
            riichi,
            double_riichi,
            ippatsu,
            haitei,
            houtei,
            rinshan,
            player_wind,
            round_wind,
            chankan,
            tsumo_first_turn,
            riichi_sticks,
            honba,
        }
    }
}

/// The outcome of evaluating a winning hand.
#[derive(Debug, Clone)]
pub struct WinResult {
    pub is_win: bool,
    pub yakuman: bool,
    pub ron_agari: u32,
    pub tsumo_agari_oya: u32,
    pub tsumo_agari_ko: u32,
    pub yaku: Vec<u32>,
    pub han: u32,
    pub fu: u32,
    pub pao_payer: Option<u8>,
    pub has_win_shape: bool,
}

impl WinResult {
    /// Builds a result from each of its fields.
    pub fn new(
        is_win: bool,
        yakuman: bool,
        ron_agari: u32,
        tsumo_agari_oya: u32,
        tsumo_agari_ko: u32,
        yaku: Vec<u32>,
        han: u32,
        fu: u32,
        pao_payer: Option<u8>,
        has_win_shape: bool,
    ) -> (r: Self)
        ensures
            r.is_win == is_win,
            r.yakuman == yakuman,
            r.ron_agari == ron_agari,
            r.tsumo_agari_oya == tsumo_agari_oya,
            r.tsumo_agari_ko == tsumo_agari_ko,
            r.yaku@ == yaku@,
            r.han == han,
            r.fu == fu,
            r.pao_payer == pao_payer,
            r.has_win_shape == has_win_shape,
    {
        WinResult {
            is_win,
            yakuman,
            ron_agari,
            tsumo_agari_oya,
            tsumo_agari_ko,
            yaku,
            han,
            fu,
            pao_payer,
            has_win_shape,
        }
    }

    /// Constructor with the keyword defaults of the scripting interface.
    pub fn py_new(
        is_win: bool,
        yakuman: bool,
        ron_agari: u32,
        tsumo_agari_oya: u32,
        tsumo_agari_ko: u32,
        yaku: Vec<u32>,
        han: u32,
        fu: u32,
        pao_payer: Option<u8>,
        has_win_shape: bool,
    ) -> (r: Self)
        ensures
            r.is_win == is_win,
            r.yakuman == yakuman,
            r.ron_agari == ron_agari,
            r.tsumo_agari_oya == tsumo_agari_oya,
            r.tsumo_agari_ko == tsumo_agari_ko,
            r.yaku@ == yaku@,
            r.han == han,
            r.fu == fu,
            r.pao_payer == pao_payer,
            r.has_win_shape == has_win_shape,
    {
        Self::new(
            is_win,
            yakuman,
            ron_agari,
            tsumo_agari_oya,
            tsumo_agari_ko,
            yaku,
            han,
            fu,
            pao_payer,
            has_win_shape,
        )
    }
}

/// True for terminals and honours: tile types 1m/9m/1p/9p/1s/9s and all honours.
pub open spec fn spec_is_terminal_tile(t: u8) -> bool {
    let t_type = t / 4;
    (t_type / 9) == 3 || (t_type % 9) == 0 || (t_type % 9) == 8
}

/// Whether the 136-tile id `t` is a terminal or an honour tile.
pub fn is_terminal_tile(t: u8) -> (r: bool)
    ensures
        r == spec_is_terminal_tile(t),
{
    let t_type = t / 4;
    let rank = t_type % 9;
    let suit = t_type / 9;
    suit == 3 || rank == 0 || rank == 8
}

/// Tiles that three-player mahjong leaves out: 2m to 8m (tile types 1 to 7).
pub open spec fn spec_is_sanma_excluded_tile(t: u8) -> bool {
    1 <= t / 4 <= 7
}

/// Whether the 136-tile id `t` is one of the tiles that three-player mahjong leaves out.
pub fn is_sanma_excluded_tile(t: u8) -> (r: bool)
    ensures
        r == spec_is_sanma_excluded_tile(t),
{
    let t_type = t / 4;
    1 <= t_type && t_type <= 7
}

/// The tile type that a dora indicator of type `t` points at in three-player
/// mahjong: 1m and 9m point at each other (2m to 8m are out of play); pinzu and
/// souzu go up one, 9 back to 1; winds go E, S, W, N and round; dragons go
/// white, green, red and round.
pub open spec fn sanma_dora_type(t: int) -> int {
    if t == 0 {
        8
    } else if t == 8 {
        0
    } else if t < 27 {
        if t % 9 == 8 {
            t - 8
        } else {
            t + 1
        }
    } else if t < 31 {
        if t == 30 {
            27
        } else {
            t + 1
        }
    } else if t == 33 {
        31
    } else {
        t + 1
    }
}

/// The dora that the indicator tile `tile` (a 136-tile id) points at in
/// three-player mahjong, as the first copy of its type. Only real tiles
/// (ids below 136) have a next tile; ids beyond them are left out, since no
/// tile type follows from them.
pub fn dora_next(tile: u32) -> (r: u8)
    requires
        tile < 136,
    ensures
        r as int == 4 * sanma_dora_type((tile / 4) as int),
        r < 136,
{
    let t: u8 = (tile / 4) as u8;
    let next: u8 = if t == 0 {
        8
    } else if t == 8 {
        0
    } else if t < 27 {
        if t % 9 == 8 {
            t - 8
        } else {
            t + 1
        }
    } else if t < 31 {
        if t == 30 {
            27
        } else {
            t + 1
        }
    } else if t == 33 {
        31
    } else {
        t + 1
    };
    next * 4
}

/// The dora of a tile in play is a tile in play: it is a real tile type and
/// never one of 2m to 8m.
pub proof fn lemma_sanma_dora_in_play(t: int)
    requires
        0 <= t < 34,
        !(1 <= t <= 7),
    ensures
        0 <= sanma_dora_type(t) < 34,
        !(1 <= sanma_dora_type(t) <= 7),
{
}

} // verus!
