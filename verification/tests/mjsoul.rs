use riichienv::mjsoul::{
    kyoku_from_raw_actions, parse_raw_action, parse_tile_136, parse_tile_34, rounds_from_raw,
    FanRaw, HuleDataRaw, RawAction, ReplayAction,
};
use riichienv::types::MeldType;

fn s(x: &str) -> String {
    x.to_string()
}

fn strings(xs: &[&str]) -> Vec<String> {
    xs.iter().map(|x| x.to_string()).collect()
}

#[test]
fn mjsoul_tiles_read_as_ids() {
    assert_eq!(parse_tile_34("1m"), (0, false));
    assert_eq!(parse_tile_34("0p"), (13, true));
    assert_eq!(parse_tile_34("9s"), (26, false));
    assert_eq!(parse_tile_34("7z"), (33, false));
    assert_eq!(parse_tile_34("8z"), (0, false));
    assert_eq!(parse_tile_34("x"), (0, false));
    assert_eq!(parse_tile_136("0m"), 16);
    assert_eq!(parse_tile_136("5m"), 17);
    assert_eq!(parse_tile_136("0s"), 88);
    assert_eq!(parse_tile_136("1z"), 108);
    assert_eq!(parse_tile_136("7z"), 132);
    assert_eq!(parse_tile_136("3p"), 44);
}

#[test]
fn raw_records_become_actions() {
    match parse_raw_action(RawAction::DiscardTile {
        seat: 2,
        tile: s("0p"),
        is_liqi: true,
        is_wliqi: false,
        doras: vec![],
    }) {
        ReplayAction::DiscardTile { seat, tile, is_liqi, doras, .. } => {
            assert_eq!((seat, tile, is_liqi), (2, 52, true));
            assert!(doras.is_none());
        }
        _ => panic!("expected a discard"),
    }
    match parse_raw_action(RawAction::DealTile {
        seat: 1,
        tile: s("1z"),
        doras: vec![],
        dora_marker: Some(s("2z")),
        left_tile_count: Some(50),
    }) {
        ReplayAction::DealTile { tile, doras, left_tile_count, .. } => {
            assert_eq!(tile, 108);
            assert_eq!(doras, Some(vec![112]));
            assert_eq!(left_tile_count, Some(50));
        }
        _ => panic!("expected a draw"),
    }
    match parse_raw_action(RawAction::ChiPengGang {
        seat: 0,
        meld_type: 7,
        tiles: strings(&["1m", "2m", "3m"]),
        froms: vec![0, 0, 3],
    }) {
        ReplayAction::ChiPengGang { meld_type, tiles, froms, .. } => {
            assert_eq!(meld_type, MeldType::Chi);
            assert_eq!(tiles, vec![0, 4, 8]);
            assert_eq!(froms, vec![0, 0, 3]);
        }
        _ => panic!("expected a call"),
    }
    match parse_raw_action(RawAction::AnGangAddGang { seat: 3, meld_type: 2, tiles: s("5s") }) {
        ReplayAction::AnGangAddGang { meld_type, tiles, tile_raw_id, doras, .. } => {
            assert_eq!(meld_type, MeldType::Kakan);
            assert_eq!(tiles, vec![89]);
            assert_eq!(tile_raw_id, 22);
            assert!(doras.is_none());
        }
        _ => panic!("expected a kan"),
    }
    let hule = HuleDataRaw {
        seat: 1,
        hu_tile: s("9p"),
        zimo: false,
        count: 3,
        fu: 40,
        fans: vec![FanRaw { id: 1, val: 1 }, FanRaw { id: 31, val: 0 }, FanRaw { id: 7, val: 2 }],
        hand: vec![],
        ura_dora_indicators: None,
        li_doras: Some(strings(&["1s"])),
        yiman: false,
        point_rong: 5200,
        point_zimo_qin: 0,
        point_zimo_xian: 0,
    };
    match parse_raw_action(RawAction::Hule { hules: vec![hule] }) {
        ReplayAction::Hule { hules } => {
            assert_eq!(hules[0].hu_tile, 68);
            assert_eq!(hules[0].fans, vec![1, 7]);
            assert_eq!(hules[0].li_doras, Some(vec![72]));
            assert_eq!(hules[0].point_rong, 5200);
        }
        _ => panic!("expected a win"),
    }
    match parse_raw_action(RawAction::Other) {
        ReplayAction::Other(t) => assert_eq!(t, "Other"),
        _ => panic!("expected other"),
    }
}

fn new_round(scores: Vec<i32>, ben: Option<u8>, honba: Option<u8>) -> RawAction {
    RawAction::NewRound {
        scores,
        doras: None,
        dora_indicators: None,
        dora_marker: Some(s("3m")),
        tiles0: strings(&["1m", "0m"]),
        tiles1: strings(&["1z"]),
        tiles2: vec![],
        tiles3: strings(&["9s"]),
        chang: 1,
        ju: 2,
        ben,
        honba,
        liqibang: 1,
        left_tile_count: None,
        ura_doras: None,
        paishan: Some(s("wall")),
    }
}

#[test]
fn a_round_is_read_from_its_records() {
    let raw = vec![
        new_round(vec![35000, 35000, 35000], None, Some(2)),
        RawAction::DiscardTile {
            seat: 2,
            tile: s("1z"),
            is_liqi: true,
            is_wliqi: true,
            doras: vec![],
        },
        RawAction::NoTile,
    ];
    let k = kyoku_from_raw_actions(raw);
    assert_eq!(k.scores, vec![35000, 35000, 35000]);
    assert_eq!(k.end_scores, k.scores);
    assert_eq!(k.doras, vec![8]);
    assert_eq!(k.hands, vec![vec![0, 16], vec![108], vec![], vec![104]]);
    assert_eq!((k.chang, k.ju, k.ben, k.liqibang, k.left_tile_count), (1, 2, 2, 1, 70));
    assert_eq!(k.wliqi, vec![false, false, true, false]);
    assert_eq!(k.paishan, Some(s("wall")));
    assert_eq!(k.actions.len(), 3);
    assert!(matches!(k.actions[0], ReplayAction::Other(_)));
    assert!(matches!(k.actions[2], ReplayAction::NoTile));
    // A round that does not start with a new-round record keeps the defaults.
    let k = kyoku_from_raw_actions(vec![RawAction::NoTile]);
    assert_eq!(k.hands.len(), 4);
    assert_eq!(k.left_tile_count, 70);
}

#[test]
fn end_scores_come_from_the_next_round() {
    let rounds = rounds_from_raw(vec![
        vec![new_round(vec![1, 2, 3], Some(0), Some(5))],
        vec![new_round(vec![4, 5, 6], None, None)],
    ]);
    assert_eq!(rounds[0].ben, 0);
    assert_eq!(rounds[0].end_scores, vec![4, 5, 6]);
    assert_eq!(rounds[1].ben, 0);
    assert_eq!(rounds[1].end_scores, vec![4, 5, 6]);
}
