//! MjSoul replay records: their tile notation, and the conversion of a
//! round's raw records into a round log.

use vstd::prelude::*;
use vstd::string::StrSliceExecFns;

use crate::types::MeldType;

verus! {

// ── Tile notation ────────────────────────────────────────────────────────────

/// First tile type of a MjSoul suit letter: `m` 0, `p` 9, `s` 18.
pub open spec fn mjsoul_suit_base(c: char) -> Option<int> {
    if c == 'm' {
        Some(0int)
    } else if c == 'p' {
        Some(9int)
    } else if c == 's' {
        Some(18int)
    } else {
        None
    }
}

/// The tile type (0..33) and red flag of a MjSoul tile: a digit and a suit
/// letter. `0m`/`0p`/`0s` are the red fives, `1`-`9` the numbered tiles, and
/// `1z`-`7z` the honours (E, S, W, N, white, green, red). Anything else reads
/// as type 0, not red.
pub open spec fn spec_tile_34(s: Seq<char>) -> (u8, bool) {
    if s.len() == 2 && '0' <= s[0] && s[0] <= '9' {
        let d = (s[0] as int) - 48;
        match mjsoul_suit_base(s[1]) {
            Some(base) => if d == 0 {
                ((base + 4) as u8, true)
            } else {
                ((base + d - 1) as u8, false)
            },
            None => if s[1] == 'z' && 1 <= d && d <= 7 {
                ((27 + d - 1) as u8, false)
            } else {
                (0u8, false)
            },
        }
    } else {
        (0u8, false)
    }
}

/// The 136-tile id of a MjSoul tile: the first copy of its type, except that a
/// plain five skips the red copy (id + 1), as in MJAI notation.
pub open spec fn spec_tile_136(s: Seq<char>) -> u8 {
    let (t, red) = spec_tile_34(s);
    if !red && t < 27 && t % 9 == 4 {
        (t * 4 + 1) as u8
    } else {
        (t * 4) as u8
    }
}

fn suit_base_of(c: char) -> (r: Option<u8>)
    ensures
        r matches Some(b) ==> mjsoul_suit_base(c) == Some(b as int),
        r is None ==> mjsoul_suit_base(c) is None,
{
    if c == 'm' {
        Some(0)
    } else if c == 'p' {
        Some(9)
    } else if c == 's' {
        Some(18)
    } else {
        None
    }
}

/// Reads a MjSoul tile as its type and red flag (see [`spec_tile_34`]).
pub fn parse_tile_34(s: &str) -> (r: (u8, bool))
    ensures
        r == spec_tile_34(s@),
        r.0 < 34,
{
    if s.unicode_len() != 2 {
        return (0, false);
    }
    let c0 = s.get_char(0);
    let c1 = s.get_char(1);
    if !('0' <= c0 && c0 <= '9') {
        return (0, false);
    }
    let d: u8 = (c0 as u32 - '0' as u32) as u8;
    match suit_base_of(c1) {
        Some(base) => if d == 0 {
            (base + 4, true)
        } else {
            (base + d - 1, false)
        },
        None => if c1 == 'z' && 1 <= d && d <= 7 {
            (27 + d - 1, false)
        } else {
            (0, false)
        },
    }
}

/// Reads a MjSoul tile as its 136-tile id (see [`spec_tile_136`]).
pub fn parse_tile_136(s: &str) -> (r: u8)
    ensures
        r == spec_tile_136(s@),
        r < 136,
{
    let (t, red) = parse_tile_34(s);
    if !red && t < 27 && t % 9 == 4 {
        t * 4 + 1
    } else {
        t * 4
    }
}

/// The 136-tile ids of some MjSoul tiles, in order.
pub open spec fn spec_tiles(ss: Seq<String>) -> Seq<u8> {
    ss.map_values(|s: String| spec_tile_136(s@))
}

/// Reads each tile of `ss` (see [`spec_tiles`]).
pub fn parse_tiles(ss: &Vec<String>) -> (r: Vec<u8>)
    ensures
        r@ == spec_tiles(ss@),
{
    let mut r: Vec<u8> = Vec::new();
    let mut i: usize = 0;
    while i < ss.len()
        invariant
            0 <= i <= ss@.len(),
            r@ == spec_tiles(ss@.take(i as int)),
        decreases ss@.len() - i,
    {
        r.push(parse_tile_136(ss[i].as_str()));
        assert(spec_tiles(ss@.take(i + 1)) =~= spec_tiles(ss@.take(i as int)).push(
            spec_tile_136(ss@[i as int]@),
        ));
        i = i + 1;
    }
    assert(ss@.take(i as int) =~= ss@);
    r
}

/// The tiles of a list that may be empty: none for an empty list.
pub open spec fn spec_opt_tiles(ss: Seq<String>) -> Option<Seq<u8>> {
    if ss.len() == 0 {
        None
    } else {
        Some(spec_tiles(ss))
    }
}

fn parse_opt_tiles(ss: &Vec<String>) -> (r: Option<Vec<u8>>)
    ensures
        opt_seq(r) == spec_opt_tiles(ss@),
{
    if ss.len() == 0 {
        None
    } else {
        Some(parse_tiles(ss))
    }
}

/// The view of an optional list.
pub open spec fn opt_seq<T>(o: Option<Vec<T>>) -> Option<Seq<T>> {
    match o {
        Some(v) => Some(v@),
        None => None,
    }
}

// ── Raw records ──────────────────────────────────────────────────────────────

/// A fan (yaku) entry of a MjSoul win: its id and its value in han.
pub struct FanRaw {
    pub id: u32,
    pub val: u32,
}

/// A win as a MjSoul record gives it, tiles in MjSoul notation.
pub struct HuleDataRaw {
    pub seat: usize,
    pub hu_tile: String,
    pub zimo: bool,
    pub count: u32,
    pub fu: u32,
    pub fans: Vec<FanRaw>,
    pub hand: Vec<String>,
    pub ura_dora_indicators: Option<Vec<String>>,
    pub li_doras: Option<Vec<String>>,
    pub yiman: bool,
    pub point_rong: u32,
    pub point_zimo_qin: u32,
    pub point_zimo_xian: u32,
}

/// One record of a MjSoul round, as read from the log.
pub enum RawAction {
    NewRound {
        scores: Vec<i32>,
        doras: Option<Vec<String>>,
        dora_indicators: Option<Vec<String>>,
        dora_marker: Option<String>,
        tiles0: Vec<String>,
        tiles1: Vec<String>,
        tiles2: Vec<String>,
        tiles3: Vec<String>,
        chang: u8,
        ju: u8,
        ben: Option<u8>,
        honba: Option<u8>,
        liqibang: u8,
        left_tile_count: Option<u8>,
        ura_doras: Option<Vec<String>>,
        paishan: Option<String>,
    },
    DiscardTile { seat: usize, tile: String, is_liqi: bool, is_wliqi: bool, doras: Vec<String> },
    DealTile {
        seat: usize,
        tile: String,
        doras: Vec<String>,
        dora_marker: Option<String>,
        left_tile_count: Option<u8>,
    },
    ChiPengGang { seat: usize, meld_type: u64, tiles: Vec<String>, froms: Vec<usize> },
    AnGangAddGang { seat: usize, meld_type: u64, tiles: String },
    Hule { hules: Vec<HuleDataRaw> },
    Dora { dora_marker: String },
    NoTile,
    BaBei { seat: usize, moqie: bool, doras: Vec<String> },
    LiuJu { lj_type: u8, seat: usize, tiles: Vec<String> },
    Other,
}

// ── Round records ────────────────────────────────────────────────────────────

/// A win of a round log, tiles as 136-tile ids.
pub struct HuleData {
    pub seat: usize,
    pub hu_tile: u8,
    pub zimo: bool,
    pub count: u32,
    pub fu: u32,
    pub fans: Vec<u32>,
    pub li_doras: Option<Vec<u8>>,
    pub yiman: bool,
    pub point_rong: u32,
    pub point_zimo_qin: u32,
    pub point_zimo_xian: u32,
}

/// The view of a win: its lists as sequences.
pub struct HuleDataView {
    pub seat: usize,
    pub hu_tile: u8,
    pub zimo: bool,
    pub count: u32,
    pub fu: u32,
    pub fans: Seq<u32>,
    pub li_doras: Option<Seq<u8>>,
    pub yiman: bool,
    pub point_rong: u32,
    pub point_zimo_qin: u32,
    pub point_zimo_xian: u32,
}

impl View for HuleData {
    type V = HuleDataView;

    open spec fn view(&self) -> HuleDataView {
        HuleDataView {
            seat: self.seat,
            hu_tile: self.hu_tile,
            zimo: self.zimo,
            count: self.count,
            fu: self.fu,
            fans: self.fans@,
            li_doras: opt_seq(self.li_doras),
            yiman: self.yiman,
            point_rong: self.point_rong,
            point_zimo_qin: self.point_zimo_qin,
            point_zimo_xian: self.point_zimo_xian,
        }
    }
}

/// One action of a round log, tiles as 136-tile ids.
pub enum ReplayAction {
    DiscardTile { seat: usize, tile: u8, is_liqi: bool, is_wliqi: bool, doras: Option<Vec<u8>> },
    DealTile { seat: usize, tile: u8, doras: Option<Vec<u8>>, left_tile_count: Option<u8> },
    ChiPengGang { seat: usize, meld_type: MeldType, tiles: Vec<u8>, froms: Vec<usize> },
    AnGangAddGang {
        seat: usize,
        meld_type: MeldType,
        tiles: Vec<u8>,
        tile_raw_id: u8,
        doras: Option<Vec<u8>>,
    },
    Hule { hules: Vec<HuleData> },
    Dora { dora_marker: u8 },
    NoTile,
    BaBei { seat: usize, moqie: bool },
    LiuJu { lj_type: u8, seat: usize, tiles: Vec<u8> },
    Other(String),
}

/// The view of a round-log action: its lists as sequences.
pub enum ReplayActionView {
    DiscardTile { seat: usize, tile: u8, is_liqi: bool, is_wliqi: bool, doras: Option<Seq<u8>> },
    DealTile { seat: usize, tile: u8, doras: Option<Seq<u8>>, left_tile_count: Option<u8> },
    ChiPengGang { seat: usize, meld_type: MeldType, tiles: Seq<u8>, froms: Seq<usize> },
    AnGangAddGang {
        seat: usize,
        meld_type: MeldType,
        tiles: Seq<u8>,
        tile_raw_id: u8,
        doras: Option<Seq<u8>>,
    },
    Hule { hules: Seq<HuleDataView> },
    Dora { dora_marker: u8 },
    NoTile,
    BaBei { seat: usize, moqie: bool },
    LiuJu { lj_type: u8, seat: usize, tiles: Seq<u8> },
    Other(Seq<char>),
}

impl View for ReplayAction {
    type V = ReplayActionView;

    open spec fn view(&self) -> ReplayActionView {
        match self {
            ReplayAction::DiscardTile { seat, tile, is_liqi, is_wliqi, doras } =>
                ReplayActionView::DiscardTile {
                seat: *seat,
                tile: *tile,
                is_liqi: *is_liqi,
                is_wliqi: *is_wliqi,
                doras: opt_seq(*doras),
            },
            ReplayAction::DealTile { seat, tile, doras, left_tile_count } =>
                ReplayActionView::DealTile {
                seat: *seat,
                tile: *tile,
                doras: opt_seq(*doras),
                left_tile_count: *left_tile_count,
            },
            ReplayAction::ChiPengGang { seat, meld_type, tiles, froms } =>
                ReplayActionView::ChiPengGang {
                seat: *seat,
                meld_type: *meld_type,
                tiles: tiles@,
                froms: froms@,
            },
            ReplayAction::AnGangAddGang { seat, meld_type, tiles, tile_raw_id, doras } =>
                ReplayActionView::AnGangAddGang {
                seat: *seat,
                meld_type: *meld_type,
                tiles: tiles@,
                tile_raw_id: *tile_raw_id,
                doras: opt_seq(*doras),
            },
            ReplayAction::Hule { hules } => ReplayActionView::Hule {
                hules: hules@.map_values(|h: HuleData| h@),
            },
            ReplayAction::Dora { dora_marker } => ReplayActionView::Dora { dora_marker: *dora_marker },
            ReplayAction::NoTile => ReplayActionView::NoTile,
            ReplayAction::BaBei { seat, moqie } => ReplayActionView::BaBei { seat: *seat, moqie: *moqie },
            ReplayAction::LiuJu { lj_type, seat, tiles } => ReplayActionView::LiuJu {
                lj_type: *lj_type,
                seat: *seat,
                tiles: tiles@,
            },
            ReplayAction::Other(s) => ReplayActionView::Other(s@),
        }
    }
}

// ── Conversion of one record ─────────────────────────────────────────────────

/// The ids of the fans that count (value above 0), in order.
pub open spec fn counted_fans(fans: Seq<FanRaw>) -> Seq<u32>
    decreases fans.len(),
{
    if fans.len() == 0 {
        seq![]
    } else {
        let prev = counted_fans(fans.drop_last());
        if fans.last().val > 0 {
            prev.push(fans.last().id)
        } else {
            prev
        }
    }
}

/// The tiles of an optional list.
pub open spec fn spec_opt_list(o: Option<Vec<String>>) -> Option<Seq<u8>> {
    match o {
        Some(v) => Some(spec_tiles(v@)),
        None => None,
    }
}

/// A raw win with its tiles read and only the fans that count: the ura
/// indicators are those of `ura_dora_indicators`, or else of `li_doras`.
pub open spec fn spec_hule(h: HuleDataRaw) -> HuleDataView {
    HuleDataView {
        seat: h.seat,
        hu_tile: spec_tile_136(h.hu_tile@),
        zimo: h.zimo,
        count: h.count,
        fu: h.fu,
        fans: counted_fans(h.fans@),
        li_doras: match h.ura_dora_indicators {
            Some(v) => spec_opt_list(Some(v)),
            None => spec_opt_list(h.li_doras),
        },
        yiman: h.yiman,
        point_rong: h.point_rong,
        point_zimo_qin: h.point_zimo_qin,
        point_zimo_xian: h.point_zimo_xian,
    }
}

/// The meld type of a call: 0 chi, 1 pon, 2 open kan, 3 closed kan; other
/// codes read as chi.
pub open spec fn call_meld_type(t: u64) -> MeldType {
    if t == 1 {
        MeldType::Pon
    } else if t == 2 {
        MeldType::Daiminkan
    } else if t == 3 {
        MeldType::Ankan
    } else {
        MeldType::Chi
    }
}

/// MjSoul call codes: 0 reads as chi, 1 as pon, 2 as an open kan, 3 as a
/// closed kan, every other code as chi; so the four codes give four different
/// meld types, and a call record carries the meld type of its code.
pub proof fn lemma_call_codes(seat: usize, t: u64, tiles: Vec<String>, froms: Vec<usize>)
    ensures
        call_meld_type(0) == MeldType::Chi,
        call_meld_type(1) == MeldType::Pon,
        call_meld_type(2) == MeldType::Daiminkan,
        call_meld_type(3) == MeldType::Ankan,
        t > 3 ==> call_meld_type(t) == MeldType::Chi,
        forall|x: u64, y: u64| x <= 3 && y <= 3 && x != y ==> call_meld_type(x) != call_meld_type(y),
        spec_action_from_raw(RawAction::ChiPengGang { seat, meld_type: t, tiles, froms })
            matches ReplayActionView::ChiPengGang { meld_type: m, .. } && (m == MeldType::Pon <==> t
            == 1) && (m == MeldType::Daiminkan <==> t == 2) && (m == MeldType::Ankan <==> t == 3),
{
}

/// The round-log action of one raw record: tiles read as 136-tile ids; a
/// discard's or draw's dora list is none where it is empty (a draw then takes
/// its single dora marker, if any); calls get their meld type; a closed or
/// added kan keeps its one tile, the tile's type as raw id and no doras; wins
/// keep the fans that count; a nukidora drops its doras; an unknown record is
/// `Other("Other")`.
pub open spec fn spec_action_from_raw(ma: RawAction) -> ReplayActionView {
    match ma {
        RawAction::DiscardTile { seat, tile, is_liqi, is_wliqi, doras } =>
            ReplayActionView::DiscardTile {
            seat,
            tile: spec_tile_136(tile@),
            is_liqi,
            is_wliqi,
            doras: spec_opt_tiles(doras@),
        },
        RawAction::DealTile { seat, tile, doras, dora_marker, left_tile_count } =>
            ReplayActionView::DealTile {
            seat,
            tile: spec_tile_136(tile@),
            doras: if doras@.len() > 0 {
                Some(spec_tiles(doras@))
            } else {
                match dora_marker {
                    Some(dm) => Some(seq![spec_tile_136(dm@)]),
                    None => None,
                }
            },
            left_tile_count,
        },
        RawAction::ChiPengGang { seat, meld_type, tiles, froms } =>
            ReplayActionView::ChiPengGang {
            seat,
            meld_type: call_meld_type(meld_type),
            tiles: spec_tiles(tiles@),
            froms: froms@,
        },
        RawAction::AnGangAddGang { seat, meld_type, tiles } => ReplayActionView::AnGangAddGang {
            seat,
            meld_type: if meld_type == 3 {
                MeldType::Ankan
            } else {
                MeldType::Kakan
            },
            tiles: seq![spec_tile_136(tiles@)],
            tile_raw_id: spec_tile_34(tiles@).0,
            doras: None,
        },
        RawAction::Hule { hules } => ReplayActionView::Hule {
            hules: hules@.map_values(|h: HuleDataRaw| spec_hule(h)),
        },
        RawAction::Dora { dora_marker } => ReplayActionView::Dora {
            dora_marker: spec_tile_136(dora_marker@),
        },
        RawAction::NoTile => ReplayActionView::NoTile,
        RawAction::BaBei { seat, moqie, doras } => ReplayActionView::BaBei { seat, moqie },
        RawAction::LiuJu { lj_type, seat, tiles } => ReplayActionView::LiuJu {
            lj_type,
            seat,
            tiles: spec_tiles(tiles@),
        },
        RawAction::Other => ReplayActionView::Other("Other"@),
        RawAction::NewRound { .. } => ReplayActionView::Other("Other"@),
    }
}

fn parse_opt_list(o: &Option<Vec<String>>) -> (r: Option<Vec<u8>>)
    ensures
        opt_seq(r) == spec_opt_list(*o),
{
    match o {
        Some(v) => Some(parse_tiles(v)),
        None => None,
    }
}

fn count_fans(fans: &Vec<FanRaw>) -> (r: Vec<u32>)
    ensures
        r@ == counted_fans(fans@),
{
    let mut r: Vec<u32> = Vec::new();
    let mut i: usize = 0;
    while i < fans.len()
        invariant
            0 <= i <= fans@.len(),
            r@ == counted_fans(fans@.take(i as int)),
        decreases fans@.len() - i,
    {
        assert(fans@.take(i + 1).drop_last() =~= fans@.take(i as int));
        if fans[i].val > 0 {
            r.push(fans[i].id);
        }
        i = i + 1;
    }
    assert(fans@.take(i as int) =~= fans@);
    r
}

/// A raw win with its tiles read (see [`spec_hule`]).
pub fn hule_from_raw(h: &HuleDataRaw) -> (r: HuleData)
    ensures
        r@ == spec_hule(*h),
{
    let li_doras = match &h.ura_dora_indicators {
        Some(v) => Some(parse_tiles(v)),
        None => parse_opt_list(&h.li_doras),
    };
    HuleData {
        seat: h.seat,
        hu_tile: parse_tile_136(h.hu_tile.as_str()),
        zimo: h.zimo,
        count: h.count,
        fu: h.fu,
        fans: count_fans(&h.fans),
        li_doras,
        yiman: h.yiman,
        point_rong: h.point_rong,
        point_zimo_qin: h.point_zimo_qin,
        point_zimo_xian: h.point_zimo_xian,
    }
}

fn hules_from_raw(hules: &Vec<HuleDataRaw>) -> (r: Vec<HuleData>)
    ensures
        r@.map_values(|h: HuleData| h@) == hules@.map_values(|h: HuleDataRaw| spec_hule(h)),
{
    let mut r: Vec<HuleData> = Vec::new();
    let mut i: usize = 0;
    while i < hules.len()
        invariant
            0 <= i <= hules@.len(),
            r@.map_values(|h: HuleData| h@) == hules@.take(i as int).map_values(
                |h: HuleDataRaw| spec_hule(h),
            ),
        decreases hules@.len() - i,
    {
        let h = hule_from_raw(&hules[i]);
        let ghost before = r@;
        r.push(h);
        assert(r@ =~= before.push(h));
        assert(r@.map_values(|h: HuleData| h@) =~= before.map_values(|h: HuleData| h@).push(h@));
        assert(hules@.take(i + 1).map_values(|h: HuleDataRaw| spec_hule(h)) =~= hules@.take(
            i as int,
        ).map_values(|h: HuleDataRaw| spec_hule(h)).push(spec_hule(hules@[i as int])));
        i = i + 1;
    }
    assert(hules@.take(i as int) =~= hules@);
    r
}

fn meld_type_of_call(t: u64) -> (r: MeldType)
    ensures
        r == call_meld_type(t),
{
    if t == 1 {
        MeldType::Pon
    } else if t == 2 {
        MeldType::Daiminkan
    } else if t == 3 {
        MeldType::Ankan
    } else {
        MeldType::Chi
    }
}

/// The round-log action of one raw record (see [`spec_action_from_raw`]).
pub fn parse_raw_action(ma: RawAction) -> (r: ReplayAction)
    ensures
        r@ == spec_action_from_raw(ma),
{
    match ma {
        RawAction::DiscardTile { seat, tile, is_liqi, is_wliqi, doras } => ReplayAction::DiscardTile {
            seat,
            tile: parse_tile_136(tile.as_str()),
            is_liqi,
            is_wliqi,
            doras: parse_opt_tiles(&doras),
        },
        RawAction::DealTile { seat, tile, doras, dora_marker, left_tile_count } => {
            let mut d_res = parse_opt_tiles(&doras);
            if d_res.is_none() {
                match dora_marker {
                    Some(dm) => {
                        let mut one: Vec<u8> = Vec::new();
                        one.push(parse_tile_136(dm.as_str()));
                        d_res = Some(one);
                    },
                    None => {},
                }
            }
            ReplayAction::DealTile {
                seat,
                tile: parse_tile_136(tile.as_str()),
                doras: d_res,
                left_tile_count,
            }
        },
        RawAction::ChiPengGang { seat, meld_type, tiles, froms } => ReplayAction::ChiPengGang {
            seat,
            meld_type: meld_type_of_call(meld_type),
            tiles: parse_tiles(&tiles),
            froms,
        },
        RawAction::AnGangAddGang { seat, meld_type, tiles } => {
            let m_type = if meld_type == 3 {
                MeldType::Ankan
            } else {
                MeldType::Kakan
            };
            let tile_raw_id = parse_tile_34(tiles.as_str()).0;
            let mut one: Vec<u8> = Vec::new();
            one.push(parse_tile_136(tiles.as_str()));
            ReplayAction::AnGangAddGang { seat, meld_type: m_type, tiles: one, tile_raw_id, doras: None }
        },
        RawAction::Hule { hules } => ReplayAction::Hule { hules: hules_from_raw(&hules) },
        RawAction::Dora { dora_marker } => ReplayAction::Dora {
            dora_marker: parse_tile_136(dora_marker.as_str()),
        },
        RawAction::NoTile => ReplayAction::NoTile,
        RawAction::BaBei { seat, moqie, doras: _ } => ReplayAction::BaBei { seat, moqie },
        RawAction::LiuJu { lj_type, seat, tiles } => ReplayAction::LiuJu {
            lj_type,
            seat,
            tiles: parse_tiles(&tiles),
        },
        _ => {
            let other = String::from_str("Other");
            proof {
                reveal_strlit("Other");
            }
            ReplayAction::Other(other)
        },
    }
}

// ── A round ──────────────────────────────────────────────────────────────────

/// The log of one round: its start (scores, dora and ura indicators, hands,
/// round wind, dealer round, honba, riichi sticks, tiles left, wall), the seats
/// that declared double riichi, and its actions.
pub struct LogKyoku {
    pub scores: Vec<i32>,
    pub end_scores: Vec<i32>,
    pub doras: Vec<u8>,
    pub ura_doras: Vec<u8>,
    pub hands: Vec<Vec<u8>>,
    pub chang: u8,
    pub ju: u8,
    pub ben: u8,
    pub liqibang: u8,
    pub left_tile_count: u8,
    pub wliqi: Vec<bool>,
    pub paishan: Option<String>,
    pub actions: Vec<ReplayAction>,
    pub game_end_scores: Option<Vec<i32>>,
}

/// The view of a round log: its lists as sequences.
pub struct LogKyokuView {
    pub scores: Seq<i32>,
    pub end_scores: Seq<i32>,
    pub doras: Seq<u8>,
    pub ura_doras: Seq<u8>,
    pub hands: Seq<Seq<u8>>,
    pub chang: u8,
    pub ju: u8,
    pub ben: u8,
    pub liqibang: u8,
    pub left_tile_count: u8,
    pub wliqi: Seq<bool>,
    pub paishan: Option<Seq<char>>,
    pub actions: Seq<ReplayActionView>,
    pub game_end_scores: Option<Seq<i32>>,
}

impl View for LogKyoku {
    type V = LogKyokuView;

    open spec fn view(&self) -> LogKyokuView {
        LogKyokuView {
            scores: self.scores@,
            end_scores: self.end_scores@,
            doras: self.doras@,
            ura_doras: self.ura_doras@,
            hands: self.hands@.map_values(|h: Vec<u8>| h@),
            chang: self.chang,
            ju: self.ju,
            ben: self.ben,
            liqibang: self.liqibang,
            left_tile_count: self.left_tile_count,
            wliqi: self.wliqi@,
            paishan: match self.paishan {
                Some(p) => Some(p@),
                None => None,
            },
            actions: self.actions@.map_values(|a: ReplayAction| a@),
            game_end_scores: opt_seq(self.game_end_scores),
        }
    }
}

/// The round's first dora indicators: those of `dora_indicators`, or else of
/// `doras`, or else the single `dora_marker`, or none.
pub open spec fn start_doras(
    doras: Option<Vec<String>>,
    dora_indicators: Option<Vec<String>>,
    dora_marker: Option<String>,
) -> Seq<u8> {
    match dora_indicators {
        Some(v) => spec_tiles(v@),
        None => match doras {
            Some(v) => spec_tiles(v@),
            None => match dora_marker {
                Some(dm) => seq![spec_tile_136(dm@)],
                None => seq![],
            },
        },
    }
}

/// The seats (of four) that some discard of `acts` marks as double riichi.
pub open spec fn spec_wliqi(acts: Seq<ReplayActionView>) -> Seq<bool>
    decreases acts.len(),
{
    if acts.len() == 0 {
        seq![false, false, false, false]
    } else {
        let prev = spec_wliqi(acts.drop_last());
        match acts.last() {
            ReplayActionView::DiscardTile { seat, is_wliqi, .. } => if is_wliqi {
                prev.update(seat as int, true)
            } else {
                prev
            },
            _ => prev,
        }
    }
}

/// Double-riichi discards name one of four seats.
pub open spec fn wliqi_seats_valid(raw: Seq<RawAction>) -> bool {
    forall|i: int|
        0 <= i < raw.len() ==> (#[trigger] raw[i] matches RawAction::DiscardTile { seat, is_wliqi, .. }
            ==> (is_wliqi ==> seat < 4))
}

/// The log of a round from its raw records: where the first record starts the
/// round, its scores (also the end scores), first doras, hands, round wind,
/// dealer round, honba (`ben`, or else `honba`, or else 0), riichi sticks,
/// tiles left (70 where absent), ura indicators and wall; otherwise empty
/// lists, four empty hands, zeros and 70 tiles left. Every record becomes an
/// action; the double-riichi seats are read from the discards.
pub open spec fn spec_kyoku(raw: Seq<RawAction>) -> LogKyokuView {
    let actions = raw.map_values(|ma: RawAction| spec_action_from_raw(ma));
    let base = LogKyokuView {
        scores: seq![],
        end_scores: seq![],
        doras: seq![],
        ura_doras: seq![],
        hands: seq![seq![], seq![], seq![], seq![]],
        chang: 0,
        ju: 0,
        ben: 0,
        liqibang: 0,
        left_tile_count: 70,
        wliqi: spec_wliqi(actions),
        paishan: None,
        actions,
        game_end_scores: None,
    };
    match raw[0] {
        RawAction::NewRound {
            scores,
            doras,
            dora_indicators,
            dora_marker,
            tiles0,
            tiles1,
            tiles2,
            tiles3,
            chang,
            ju,
            ben,
            honba,
            liqibang,
            left_tile_count,
            ura_doras,
            paishan,
        } => LogKyokuView {
            scores: scores@,
            end_scores: scores@,
            doras: start_doras(doras, dora_indicators, dora_marker),
            ura_doras: match ura_doras {
                Some(v) => spec_tiles(v@),
                None => seq![],
            },
            hands: seq![
                spec_tiles(tiles0@),
                spec_tiles(tiles1@),
                spec_tiles(tiles2@),
                spec_tiles(tiles3@),
            ],
            chang,
            ju,
            ben: match ben {
                Some(b) => b,
                None => match honba {
                    Some(h) => h,
                    None => 0,
                },
            },
            liqibang,
            left_tile_count: match left_tile_count {
                Some(c) => c,
                None => 70,
            },
            paishan: match paishan {
                Some(p) => Some(p@),
                None => None,
            },
            ..base
        },
        _ => base,
    }
}

fn copy_scores(v: &Vec<i32>) -> (r: Vec<i32>)
    ensures
        r@ == v@,
{
    let mut r: Vec<i32> = Vec::new();
    let mut i: usize = 0;
    while i < v.len()
        invariant
            0 <= i <= v@.len(),
            r@ == v@.take(i as int),
        decreases v@.len() - i,
    {
        r.push(v[i]);
        assert(v@.take(i + 1) =~= v@.take(i as int).push(v@[i as int]));
        i = i + 1;
    }
    assert(v@.take(i as int) =~= v@);
    r
}

fn wliqi_of(actions: &Vec<ReplayAction>) -> (r: Vec<bool>)
    requires
        forall|i: int|
            0 <= i < actions@.len() ==> (#[trigger] actions@[i]@ matches ReplayActionView::DiscardTile {
                seat,
                is_wliqi,
                ..
            } ==> (is_wliqi ==> seat < 4)),
    ensures
        r@ == spec_wliqi(actions@.map_values(|a: ReplayAction| a@)),
{
    let ghost acts = actions@.map_values(|a: ReplayAction| a@);
    let mut r: Vec<bool> = Vec::new();
    r.push(false);
    r.push(false);
    r.push(false);
    r.push(false);
    let mut i: usize = 0;
    while i < actions.len()
        invariant
            0 <= i <= actions@.len(),
            acts == actions@.map_values(|a: ReplayAction| a@),
            r@ == spec_wliqi(acts.take(i as int)),
            r@.len() == 4,
            forall|i: int|
                0 <= i < actions@.len() ==> (#[trigger] actions@[i]@ matches ReplayActionView::DiscardTile {
                    seat,
                    is_wliqi,
                    ..
                } ==> (is_wliqi ==> seat < 4)),
        decreases actions@.len() - i,
    {
        assert(acts.take(i + 1).drop_last() =~= acts.take(i as int));
        assert(acts[i as int] == actions@[i as int]@);
        match &actions[i] {
            ReplayAction::DiscardTile { seat, is_wliqi, .. } => {
                assert(actions@[i as int]@ matches ReplayActionView::DiscardTile { .. });
                if *is_wliqi {
                    r.set(*seat, true);
                }
            },
            _ => {},
        }
        i = i + 1;
    }
    assert(acts.take(i as int) =~= acts);
    r
}

/// The log of a round from its raw records (see [`spec_kyoku`]).
pub fn kyoku_from_raw_actions(raw_actions: Vec<RawAction>) -> (r: LogKyoku)
    requires
        raw_actions@.len() > 0,
        wliqi_seats_valid(raw_actions@),
    ensures
        r@ == spec_kyoku(raw_actions@),
{
    let ghost raw = raw_actions@;
    let mut rest = raw_actions;
    let total: usize = rest.len();
    let first = rest.remove(0);
    let mut scores: Vec<i32> = Vec::new();
    let mut doras: Vec<u8> = Vec::new();
    let mut hands: Vec<Vec<u8>> = Vec::new();
    hands.push(Vec::new());
    hands.push(Vec::new());
    hands.push(Vec::new());
    hands.push(Vec::new());
    let mut chang: u8 = 0;
    let mut ju: u8 = 0;
    let mut ben: u8 = 0;
    let mut liqibang: u8 = 0;
    let mut left_tile_count: u8 = 70;
    let mut ura_doras: Vec<u8> = Vec::new();
    let mut paishan: Option<String> = None;
    let mut actions: Vec<ReplayAction> = Vec::new();
    match first {
        RawAction::NewRound {
            scores: s,
            doras: d_opt,
            dora_indicators,
            dora_marker,
            tiles0,
            tiles1,
            tiles2,
            tiles3,
            chang: c,
            ju: j,
            ben: b,
            honba,
            liqibang: l,
            left_tile_count: lc,
            ura_doras: ud,
            paishan: p,
        } => {
            scores = s;
            match &dora_indicators {
                Some(da) => {
                    doras = parse_tiles(da);
                },
                None => match &d_opt {
                    Some(da) => {
                        doras = parse_tiles(da);
                    },
                    None => match &dora_marker {
                        Some(dm) => {
                            doras.push(parse_tile_136(dm.as_str()));
                        },
                        None => {},
                    },
                },
            }
            hands = Vec::new();
            hands.push(parse_tiles(&tiles0));
            hands.push(parse_tiles(&tiles1));
            hands.push(parse_tiles(&tiles2));
            hands.push(parse_tiles(&tiles3));
            chang = c;
            ju = j;
            ben = match b {
                Some(x) => x,
                None => match honba {
                    Some(h) => h,
                    None => 0,
                },
            };
            liqibang = l;
            left_tile_count = match lc {
                Some(x) => x,
                None => 70,
            };
            match &ud {
                Some(uda) => {
                    ura_doras = parse_tiles(uda);
                },
                None => {},
            }
            paishan = p;
            let other = String::from_str("Other");
            proof {
                reveal_strlit("Other");
            }
            actions.push(ReplayAction::Other(other));
        },
        m => {
            actions.push(parse_raw_action(m));
        },
    }
    let mut k: usize = 1;
    while rest.len() > 0
        invariant
            1 <= k <= raw.len(),
            rest@ == raw.skip(k as int),
            rest@.len() == raw.len() - k,
            raw.len() == total,
            actions@.map_values(|a: ReplayAction| a@) == raw.take(k as int).map_values(
                |ma: RawAction| spec_action_from_raw(ma),
            ),
        decreases rest@.len(),
    {
        let ma = rest.remove(0);
        let ghost before = actions@;
        let a = parse_raw_action(ma);
        actions.push(a);
        assert(actions@ =~= before.push(a));
        assert(actions@.map_values(|a: ReplayAction| a@) =~= before.map_values(|a: ReplayAction| a@).push(a@));
        assert(raw.take(k + 1) =~= raw.take(k as int).push(raw[k as int]));
        assert(raw.take(k + 1).map_values(|ma: RawAction| spec_action_from_raw(ma)) =~= raw.take(
            k as int,
        ).map_values(|ma: RawAction| spec_action_from_raw(ma)).push(spec_action_from_raw(raw[k as int])));
        assert(raw.skip(k + 1) =~= raw.skip(k as int).drop_first());
        k = k + 1;
    }
    assert(raw.take(k as int) =~= raw);
    let ghost acts = raw.map_values(|ma: RawAction| spec_action_from_raw(ma));
    assert(actions@.map_values(|a: ReplayAction| a@) == acts);
    assert forall|i: int|
        0 <= i < actions@.len() implies (#[trigger] actions@[i]@ matches ReplayActionView::DiscardTile {
        seat,
        is_wliqi,
        ..
    } ==> (is_wliqi ==> seat < 4)) by {
        assert(actions@[i]@ == acts[i]);
        assert(acts[i] == spec_action_from_raw(raw[i]));
        assert(raw[i] matches RawAction::DiscardTile { seat, is_wliqi, .. } ==> (is_wliqi ==> seat
            < 4));
    }
    let wliqi = wliqi_of(&actions);
    let end_scores = copy_scores(&scores);
    let r = LogKyoku {
        scores,
        end_scores,
        doras,
        ura_doras,
        hands,
        chang,
        ju,
        ben,
        liqibang,
        left_tile_count,
        wliqi,
        paishan,
        actions,
        game_end_scores: None,
    };
    let ghost want = spec_kyoku(raw);
    assert(r@.actions == want.actions);
    assert(r@.hands == want.hands);
    r
}

// ── A game ───────────────────────────────────────────────────────────────────

/// Each round's raw records start a valid round (see [`kyoku_from_raw_actions`]).
pub open spec fn rounds_valid(raw: Seq<Vec<RawAction>>) -> bool {
    forall|i: int|
        0 <= i < raw.len() ==> (#[trigger] raw[i])@.len() > 0 && wliqi_seats_valid(raw[i]@)
}

/// The round logs of a game: each round read from its records, its end scores
/// being the start scores of the next round (the last keeps its own).
pub open spec fn spec_rounds(raw: Seq<Vec<RawAction>>) -> Seq<LogKyokuView> {
    Seq::new(
        raw.len(),
        |i: int|
            if i + 1 < raw.len() {
                LogKyokuView { end_scores: spec_kyoku(raw[i + 1]@).scores, ..spec_kyoku(raw[i]@) }
            } else {
                spec_kyoku(raw[i]@)
            },
    )
}

/// The round logs of a game from the raw records of its rounds (see [`spec_rounds`]).
pub fn rounds_from_raw(raw_rounds: Vec<Vec<RawAction>>) -> (r: Vec<LogKyoku>)
    requires
        rounds_valid(raw_rounds@),
    ensures
        r@.map_values(|k: LogKyoku| k@) == spec_rounds(raw_rounds@),
{
    let ghost raw = raw_rounds@;
    let total: usize = raw_rounds.len();
    let mut rest = raw_rounds;
    let mut out: Vec<LogKyoku> = Vec::new();
    if total == 0 {
        assert(out@.map_values(|k: LogKyoku| k@) =~= spec_rounds(raw));
        return out;
    }
    let first = rest.remove(0);
    assert(raw[0] == first);
    let mut prev = kyoku_from_raw_actions(first);
    let mut k: usize = 1;
    while rest.len() > 0
        invariant
            1 <= k <= raw.len(),
            raw.len() == total,
            rest@ == raw.skip(k as int),
            rest@.len() == raw.len() - k,
            rounds_valid(raw),
            prev@ == spec_kyoku(raw[k - 1]@),
            out@.len() == k - 1,
            forall|j: int|
                0 <= j < k - 1 ==> (#[trigger] out@[j])@ == (LogKyokuView {
                    end_scores: spec_kyoku(raw[j + 1]@).scores,
                    ..spec_kyoku(raw[j]@)
                }),
        decreases rest@.len(),
    {
        let next_raw = rest.remove(0);
        assert(raw[k as int] == next_raw);
        let next = kyoku_from_raw_actions(next_raw);
        let ends = copy_scores(&next.scores);
        let mut done = prev;
        done.end_scores = ends;
        out.push(done);
        prev = next;
        assert(raw.skip(k + 1) =~= raw.skip(k as int).drop_first());
        k = k + 1;
    }
    out.push(prev);
    assert(out@.map_values(|k: LogKyoku| k@) =~= spec_rounds(raw));
    out
}

} // verus!
