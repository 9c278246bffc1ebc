use riichienv::action::{Action, ActionType};
use sha2::{Digest, Sha256};
use riichienv::errors::RiichiError;
use riichienv::events::parse_mjai_events;
use riichienv::observation::{
    candidates_from, drawn_tile_from_events, last_discard_actor_from_events, Observation,
};
use riichienv::parser::{mjai_to_tid, tid_to_mjai};
use riichienv::selection::{select_action, select_action_from_mjai};
use riichienv::ranking::{game_mode_from_name, ranks};
use riichienv::replay::{
    comparison_fits, is_mismatch, verify_comparisons, yaku_match, AgariComparison,
};
use riichienv::riichi::check_riichi_candidates;
use riichienv::sequence_features::{
    encode_chi, encode_pon, relative_from, tile_type_to_kan34, tile_type_to_kan37,
};
use riichienv::types::{
    dora_next, is_sanma_excluded_tile, is_terminal_tile, Conditions, Hand, Meld, MeldType, WinResult, Wind,
};
use riichienv::wall::{splitmix64, WallState3P};

fn events() -> Vec<String> {
    vec![
        r#"{"type":"start_kyoku","bakaze":"E","kyoku":1,"honba":1,"kyotaku":2,"oya":0,"scores":[25000,26000,24000,25000],"dora_marker":"1m"}"#,
        r#"{"type":"tsumo","actor":0,"pai":"5mr"}"#,
        r#"{"type":"reach","actor":0}"#,
        r#"{"type":"dahai","actor":0,"pai":"5mr","tsumogiri":true}"#,
        r#"{"type":"chi","actor":1,"target":0,"pai":"5mr","consumed":["4m","6m"]}"#,
        r#"{"type":"dahai","actor":1,"pai":"E","tsumogiri":false}"#,
        r#"{"type":"pon","actor":2,"target":1,"pai":"E","consumed":["E","E"]}"#,
        r#"{"type":"dahai","actor":2,"pai":"?"}"#,
        r#"not json"#,
        r#"{"type":"daiminkan","actor":3,"target":2,"pai":"9p","consumed":["9p","9p","9p"]}"#,
        r#"{"type":"ankan","actor":0,"consumed":["1s","1s","1s","1s"]}"#,
        r#"{"type":"kakan","actor":2,"pai":"E","consumed":["E","E","E"]}"#,
        r#"{"type":"tsumo","actor":1,"pai":"3p"}"#,
    ]
    .into_iter()
    .map(String::from)
    .collect()
}

fn observation(player_id: u8) -> Observation {
    let chi = Meld::new(MeldType::Chi, vec![12, 16, 20], true, 0, Some(16));
    Observation {
        player_id,
        hands: [
            (0..13).collect(),
            vec![44, 136, 65541, 135],
            (40..53).collect(),
            (60..73).collect(),
        ],
        melds: [vec![], vec![chi], vec![], vec![]],
        discards: [vec![16, 17], vec![108], vec![109], vec![]],
        dora_indicators: vec![0],
        scores: [10, 20, 30, 40],
        _legal_actions: vec![
            Action::new(ActionType::Discard, Some(44), vec![]),
            Action::new(ActionType::Discard, Some(45), vec![]),
            Action::new(ActionType::Riichi, None, vec![]),
            Action::new(ActionType::Chi, Some(16), vec![12, 20]),
            Action::new(ActionType::Pon, Some(108), vec![109, 110]),
            Action::new(ActionType::Daiminkan, Some(68), vec![69, 70, 71]),
            Action::new(ActionType::Ron, Some(108), vec![]),
            Action::new(ActionType::Ankan, None, vec![72, 73, 74, 75]),
            Action::new(ActionType::Kakan, None, vec![108]),
            Action::new(ActionType::Tsumo, None, vec![]),
            Action::new(ActionType::Pass, None, vec![]),
            Action::new(ActionType::KyushuKyuhai, None, vec![]),
            Action::new(ActionType::Kita, Some(120), vec![]),
        ],
        events: events(),
        honba: 3,
        riichi_sticks: 4,
        round_wind: 0,
        oya: 0,
    }
}

#[test]
fn mjai_notation_names_tile_ids() {
    assert_eq!(mjai_to_tid("E"), Some(108));
    assert_eq!(mjai_to_tid("S"), Some(112));
    assert_eq!(mjai_to_tid("W"), Some(116));
    assert_eq!(mjai_to_tid("N"), Some(120));
    assert_eq!(mjai_to_tid("P"), Some(124));
    assert_eq!(mjai_to_tid("F"), Some(128));
    assert_eq!(mjai_to_tid("C"), Some(132));
    assert_eq!(mjai_to_tid("5mr"), Some(16));
    assert_eq!(mjai_to_tid("5pr"), Some(52));
    assert_eq!(mjai_to_tid("5sr"), Some(88));
    assert_eq!(mjai_to_tid("1m"), Some(0));
    assert_eq!(mjai_to_tid("5m"), Some(17));
    assert_eq!(mjai_to_tid("9s"), Some(104));
    assert_eq!(mjai_to_tid("3p"), Some(44));
    assert_eq!(mjai_to_tid("0m"), None);
    assert_eq!(mjai_to_tid("5xr"), None);
    assert_eq!(mjai_to_tid("?"), None);
    assert_eq!(mjai_to_tid(""), None);
}

#[test]
fn event_json_fields_are_read() {
    let texts = vec![
        r#"{"type":"chi","actor":1,"target":0,"pai":"5mr","consumed":["4m",3]}"#.to_string(),
        "not json".to_string(),
    ];
    let parsed = parse_mjai_events(&texts);
    let e = parsed[0].as_ref().expect("valid json");
    assert_eq!(e.event_type.as_deref(), Some("chi"));
    assert_eq!(e.actor, Some(1));
    assert_eq!(e.target, Some(0));
    assert_eq!(e.pai.as_deref(), Some("5mr"));
    assert_eq!(e.consumed, Some(vec![Some("4m".to_string()), None]));
    assert_eq!(e.tsumogiri, None);
    assert!(parsed[1].is_none());
}

#[test]
fn progression_encodes_each_event_kind() {
    let obs = observation(0);
    let prog = obs.encode_seq_progression();
    let expected: Vec<[u16; 5]> = vec![
        [4, 0, 2, 2, 4],
        [0, 1, 1, 1, 4],
        [1, 54, 2, 2, 2],
        [1, 31, 0, 0, 4],
        [2, 161, 2, 2, 2],
        [3, 187, 2, 2, 2],
        [0, 223, 2, 2, 4],
        [2, 269, 2, 2, 4],
    ];
    assert_eq!(prog, expected);
}

#[test]
fn progression_stops_at_its_limit() {
    let mut obs = observation(0);
    obs.events = (0..600)
        .map(|_| r#"{"type":"start_kyoku"}"#.to_string())
        .collect();
    assert_eq!(obs.encode_seq_progression().len(), 512);
}

#[test]
fn drawn_tile_and_last_discard_come_from_events() {
    let parsed = parse_mjai_events(&events());
    assert_eq!(drawn_tile_from_events(&parsed, 1), Some(44));
    assert_eq!(drawn_tile_from_events(&parsed, 0), None);
    assert_eq!(last_discard_actor_from_events(&parsed), Some(2));
    assert_eq!(observation(1).get_drawn_tile(), Some(44));
    assert_eq!(observation(1).find_last_discard_actor(), Some(2));
}

#[test]
fn sparse_tokens_of_an_observation() {
    let obs = observation(1);
    assert_eq!(obs.count_tiles_remaining(), 71);
    assert_eq!(
        obs.encode_seq_sparse(1),
        vec![1, 3, 6, 9, 82, 84, 312, 273, 403, 417]
    );
    // Player 0 has drawn nothing since the last call.
    let obs0 = observation(0);
    let tokens = obs0.encode_seq_sparse(7);
    assert_eq!(tokens[0], 1);
    assert_eq!(tokens[1], 2);
    assert!(tokens.iter().all(|&t| t < 441));
    // Every style from 1 up reads as hanchan.
    assert_eq!(obs0.encode_seq_sparse(200), obs0.encode_seq_sparse(1));
    assert_ne!(obs0.encode_seq_sparse(0), obs0.encode_seq_sparse(1));
    // A 13-tile hand gives at most 25 tokens.
    assert!(tokens.len() <= 25);
}

#[test]
fn numeric_features_rotate_to_the_player() {
    let obs = observation(1);
    assert_eq!(obs.parse_start_kyoku_info(), (1, 2, [25000, 26000, 24000, 25000]));
    assert_eq!(
        obs.numeric_features(),
        [3, 4, 20, 30, 40, 10, 1, 2, 26000, 24000, 25000, 25000]
    );
    let mut no_start = observation(2);
    no_start.events = vec![];
    assert_eq!(
        no_start.numeric_features(),
        [3, 4, 30, 40, 10, 20, 3, 4, 30, 40, 10, 20]
    );
}

#[test]
fn candidates_of_each_action_kind() {
    let obs = observation(1);
    let expected: Vec<[u16; 4]> = vec![
        [13, 1, 2, 3],
        [13, 1, 1, 3],
        [13, 0, 2, 3],
        [13, 0, 1, 3],
        [127, 2, 2, 0],
        [234, 2, 2, 0],
        [260, 2, 2, 0],
        [278, 2, 2, 0],
        [55, 2, 2, 3],
        [101, 2, 2, 3],
        [108, 2, 2, 3],
        [110, 2, 2, 3],
        [109, 2, 2, 3],
    ];
    assert_eq!(obs.encode_seq_candidates(), expected);
    // Without a known discarder the responses drop out.
    let c = candidates_from(&obs._legal_actions, 1, None, None, true);
    assert_eq!(c.len(), 9);
    assert_eq!(c[0], [13, 0, 2, 3]);
    assert_eq!(c[1], [13, 0, 1, 3]);
    // Without riichi among the legal actions, discards get no riichi twin.
    let c = candidates_from(&obs._legal_actions, 1, None, None, false);
    assert_eq!(c.len(), 7);
    assert_eq!(c[1], [13, 0, 2, 3]);
}

#[test]
fn riichi_marks_discards_with_liqi() {
    let mut obs = observation(1);
    obs._legal_actions.retain(|a| a.action_type != ActionType::Riichi);
    let plain = obs.encode_seq_candidates();
    assert!(plain.iter().all(|t| t[2] != 1));
    let obs = observation(1);
    let with_riichi = obs.encode_seq_candidates();
    assert!(with_riichi.contains(&[13, 1, 1, 3]));
    assert_eq!(with_riichi.len(), plain.len() + 2);
}

#[test]
fn chi_codes_cover_red_fives_and_suits() {
    // 4m-5m(red)-6m with the red five called: start rank 3, position 1, red variant.
    assert_eq!(encode_chi(&[12, 20], 16), 16);
    // The same sequence without the red five.
    assert_eq!(encode_chi(&[12, 20], 17), 13);
    // 7s-8s-9s called 9s: last pattern of the last suit.
    assert_eq!(encode_chi(&[96, 100], 104), 89);
    // Pon of 9p: rank 8 of the second suit.
    assert_eq!(encode_pon(&[68, 69], 70), 21);
    assert_eq!(encode_pon(&[132, 133], 134), 39);
}

#[test]
fn tile_type_conversions() {
    assert_eq!(tile_type_to_kan37(0), 1);
    assert_eq!(tile_type_to_kan37(9), 11);
    assert_eq!(tile_type_to_kan37(18), 21);
    assert_eq!(tile_type_to_kan37(33), 36);
    assert_eq!(tile_type_to_kan37(34), 0);
    assert_eq!(tile_type_to_kan34(20), 20);
}

#[test]
fn relative_seats_wrap_out_of_range() {
    assert_eq!(relative_from(1, 0), 2);
    assert_eq!(relative_from(3, 0), 0);
    assert_eq!(relative_from(0, 200), 255);
}

#[test]
fn hand_counts_tile_types() {
    let mut h = Hand::new(Some(vec![0, 0, 5, 40]));
    assert_eq!(h.counts[0], 2);
    assert_eq!(h.counts[5], 1);
    assert_eq!(h.counts.iter().map(|&c| c as u32).sum::<u32>(), 3);
    h.add(5);
    assert_eq!(h.counts[5], 2);
    h.remove(5);
    h.remove(5);
    h.remove(5);
    assert_eq!(h.counts[5], 0);
    h.add(33);
    h.remove(33);
    assert_eq!(h.counts[33], 0);
    let empty = Hand::new(None);
    assert!(empty.counts.iter().all(|&c| c == 0));
}

#[test]
fn winds_and_tile_classes() {
    assert_eq!(Wind::from(0u8), Wind::East);
    assert_eq!(Wind::from(5u8), Wind::South);
    assert_eq!(Wind::from(10u8), Wind::West);
    assert_eq!(Wind::from(255u8), Wind::North);
    assert!(is_terminal_tile(0));
    assert!(is_terminal_tile(35));
    assert!(!is_terminal_tile(4));
    assert!(is_terminal_tile(108));
    assert!(is_sanma_excluded_tile(4));
    assert!(is_sanma_excluded_tile(31));
    assert!(!is_sanma_excluded_tile(32));
    assert!(!is_sanma_excluded_tile(3));
}

#[test]
fn meld_and_result_builders() {
    let mut m = Meld::py_new(MeldType::Pon, vec![4, 5, 6], true, 2, Some(6));
    assert_eq!(m.get_tiles(), vec![4u32, 5, 6]);
    assert_eq!(m.tiles_as_u32(), vec![4u32, 5, 6]);
    m.set_meld_type(MeldType::Kakan);
    m.set_tiles(vec![4, 5, 6, 7]);
    m.set_opened(false);
    m.set_from_who(-1);
    assert_eq!(m.get_meld_type(), MeldType::Kakan);
    assert!(!m.get_opened());
    assert_eq!(m.get_from_who(), -1);
    assert_eq!(m.get_called_tile(), Some(6));
    let r = WinResult::py_new(true, false, 7900, 3900, 2000, vec![1, 2], 4, 30, None, true);
    assert_eq!(r.ron_agari, 7900);
    assert_eq!(r.yaku, vec![1, 2]);
    let c = Conditions::py_new(
        true, false, false, false, false, false, false, false, false, Wind::West, Wind::East, 1, 2,
    );
    assert!(c.tsumo);
    assert_eq!(c.player_wind, Wind::West);
    assert_eq!(c.honba, 2);
    let e = RiichiError::new("bad tile".to_string());
    assert_eq!(e.to_display_string(), "bad tile");
}

#[test]
fn riichi_candidates_keep_tenpai_discards() {
    // A toy tenpai test: the hand holds a pair of 1m.
    let tiles = vec![0u8, 1, 2, 40, 41];
    let r = check_riichi_candidates(tiles, |h: &Hand| h.counts[0] == 2);
    // Dropping 2 (1m) or 40/41 (2p) keeps two 1m when the third goes.
    assert_eq!(r, vec![0, 1, 2]);
    let r = check_riichi_candidates(vec![0u8, 4, 8], |h: &Hand| h.counts[1] == 0);
    assert_eq!(r, vec![4]);
}

#[test]
fn ranks_order_by_score_then_seat() {
    assert_eq!(ranks(&vec![25000, 30000, 25000, 20000]), vec![2, 1, 3, 4]);
    assert_eq!(ranks(&vec![0, 0, 0]), vec![1, 2, 3]);
    assert_eq!(ranks(&vec![]), Vec::<usize>::new());
}

#[test]
fn game_modes_by_name() {
    assert_eq!(game_mode_from_name("4p-red-single"), 0);
    assert_eq!(game_mode_from_name("4p-red-east"), 1);
    assert_eq!(game_mode_from_name("4p-red-half"), 2);
    assert_eq!(game_mode_from_name("3p-red-single"), 3);
    assert_eq!(game_mode_from_name("3p-red-east"), 4);
    assert_eq!(game_mode_from_name("3p-red-half"), 5);
    assert_eq!(game_mode_from_name("something"), 0);
}

fn comparison(sim: (u32, u32, Vec<u32>), exp: (u32, u32, Vec<u32>)) -> AgariComparison {
    AgariComparison {
        sim_han: sim.0,
        sim_fu: sim.1,
        sim_yaku: sim.2,
        exp_han: exp.0,
        exp_fu: exp.1,
        exp_yaku: exp.2,
    }
}

#[test]
fn replay_wins_are_compared() {
    // Same yaku in another order, dora ignored: han predicted 3 - 1 + 0.
    let same = comparison((2, 30, vec![7, 1]), (3, 30, vec![1, 7, 31]));
    assert!(!is_mismatch(&same));
    // Different yaku.
    assert!(is_mismatch(&comparison((2, 30, vec![1]), (2, 30, vec![2]))));
    // Han off by one.
    assert!(is_mismatch(&comparison((3, 30, vec![1]), (2, 30, vec![1]))));
    // Fu differ below 13 han.
    assert!(is_mismatch(&comparison((2, 40, vec![1]), (2, 30, vec![1]))));
    // A yakuman recorded as 1 counts as 13; the simulation agrees.
    assert!(!is_mismatch(&comparison((13, 20, vec![39]), (1, 40, vec![39]))));
    assert!(yaku_match(&vec![31, 1, 1], &vec![1, 32, 1]));
    assert!(!yaku_match(&vec![1, 1], &vec![1]));
    let cs = vec![
        same,
        comparison((2, 40, vec![1]), (2, 30, vec![1])),
    ];
    assert_eq!(verify_comparisons(&cs), (2, 1));
}

#[test]
fn han_comparison_overflow_is_detected() {
    assert!(comparison_fits(&comparison((2, 30, vec![7, 1]), (3, 30, vec![1, 7, 31]))));
    // 2^31 read as i32 is i32::MIN; taking one ignored yaku off overflows.
    assert!(!comparison_fits(&comparison((2, 30, vec![]), (1u32 << 31, 30, vec![31]))));
    assert!(comparison_fits(&comparison((2, 30, vec![]), (1u32 << 31, 30, vec![]))));
}

#[test]
fn splitmix64_known_values() {
    assert_eq!(splitmix64(0), 0xe220a8397b1dcdaf);
    assert_eq!(splitmix64(42), 0xbdd732262feb6e95);
}

#[test]
fn shuffled_wall_is_the_sanma_set() {
    let mut w = WallState3P::new(Some(42));
    w.shuffle().unwrap();
    assert_eq!(w.hand_index, 1);
    assert_eq!(w.tiles.len(), 108);
    let mut sorted = w.tiles.clone();
    sorted.sort();
    let expected: Vec<u8> = (0..136u8).filter(|&t| !(4..32).contains(&t)).collect();
    assert_eq!(sorted, expected);
    assert_ne!(w.tiles, expected);
    assert_eq!(w.salt.len(), 16);
    assert!(w.salt.chars().all(|c| c.is_ascii_hexdigit() && !c.is_ascii_uppercase()));
    let mut data = w.salt.as_bytes().to_vec();
    data.extend(w.tiles.iter().rev());
    let digest: String = Sha256::digest(&data).iter().map(|b| format!("{:02x}", b)).collect();
    assert_eq!(w.wall_digest, digest);
    for i in 0..5 {
        assert_eq!(w.dora_indicator_tiles[i], w.tiles[4 + 2 * i]);
        assert_eq!(w.ura_indicator_tiles[i], w.tiles[5 + 2 * i]);
    }
    assert_eq!(w.dora_indicators, vec![w.tiles[4]]);

    let mut again = WallState3P::new(Some(42));
    again.shuffle().unwrap();
    assert_eq!(again.tiles, w.tiles);
    assert_eq!(again.salt, w.salt);
    w.shuffle().unwrap();
    assert_eq!(w.hand_index, 2);
    assert_ne!(w.wall_digest, again.wall_digest);
    // The second hand of the episode is the hand dealt at index 1.
    let mut second = WallState3P::new(Some(42));
    second.hand_index = 1;
    second.shuffle().unwrap();
    assert_eq!(second.tiles, w.tiles);
    assert_eq!(second.salt, w.salt);
    assert_eq!(second.wall_digest, w.wall_digest);

    let mut random = WallState3P::new(None);
    random.shuffle().unwrap();
    assert_eq!(random.tiles.len(), 108);
}

#[test]
fn loaded_wall_reads_the_dead_wall() {
    let mut w = WallState3P::new(None);
    let tiles: Vec<u8> = (0..108).collect();
    w.load_wall(tiles.clone());
    assert_eq!(w.dora_indicator_tiles, [99, 97, 95, 93, 91]);
    assert_eq!(w.ura_indicator_tiles, [98, 96, 94, 92, 90]);
    let mut rev = tiles.clone();
    rev.reverse();
    assert_eq!(w.tiles, rev);
    assert_eq!(w.dora_indicators, vec![99]);
    // A short wall keeps the indicators it had.
    w.load_wall(vec![1, 2, 3]);
    assert_eq!(w.dora_indicator_tiles, [99, 97, 95, 93, 91]);
    assert_eq!(w.tiles, vec![3, 2, 1]);
}

#[test]
fn tile_ids_to_notation() {
    assert_eq!(tid_to_mjai(16), "5mr");
    assert_eq!(tid_to_mjai(52), "5pr");
    assert_eq!(tid_to_mjai(88), "5sr");
    assert_eq!(tid_to_mjai(17), "5m");
    assert_eq!(tid_to_mjai(0), "1m");
    assert_eq!(tid_to_mjai(3), "1m");
    assert_eq!(tid_to_mjai(71), "9p");
    assert_eq!(tid_to_mjai(107), "9s");
    assert_eq!(tid_to_mjai(108), "E");
    assert_eq!(tid_to_mjai(135), "C");
    // Ids past the tile set fall in the last honour branch.
    assert_eq!(tid_to_mjai(136), "C");
    assert_eq!(tid_to_mjai(255), "C");
    for t in 0..136u8 {
        let back = mjai_to_tid(&tid_to_mjai(t)).unwrap();
        assert_eq!(back / 4, t / 4);
    }
}

#[test]
fn mjai_messages_select_legal_actions() {
    let actions = vec![
        Action::new(ActionType::Discard, Some(44), vec![]),
        Action::new(ActionType::Discard, Some(16), vec![]),
        Action::new(ActionType::Pon, Some(108), vec![109, 110]),
        Action::new(ActionType::Ron, Some(108), vec![]),
        Action::new(ActionType::Pass, None, vec![]),
    ];
    let a = select_action(&actions, "dahai", "5mr").unwrap();
    assert_eq!(a.tile, Some(16));
    let a = select_action(&actions, "dahai", "").unwrap();
    assert_eq!(a.tile, Some(44));
    assert!(select_action(&actions, "dahai", "9s").is_none());
    let a = select_action(&actions, "pon", "E").unwrap();
    assert_eq!(a.consume_tiles, vec![109, 110]);
    assert_eq!(select_action(&actions, "hora", "").unwrap().action_type, ActionType::Ron);
    assert_eq!(select_action(&actions, "none", "").unwrap().action_type, ActionType::Pass);
    assert!(select_action(&actions, "chi", "").is_none());
    assert!(select_action(&actions, "unknown", "").is_none());
    let a = select_action_from_mjai(&actions, r#"{"type":"dahai","actor":0,"pai":"3p"}"#).unwrap();
    assert_eq!(a.tile, Some(44));
    assert!(select_action_from_mjai(&actions, "{").is_none());
    assert!(select_action_from_mjai(&actions, r#"{"pai":"3p"}"#).is_none());
}

#[test]
fn sanma_dora_indicators_point_at_the_next_tile() {
    assert_eq!(dora_next(0), 32); // 1m -> 9m
    assert_eq!(dora_next(35), 0); // 9m -> 1m
    assert_eq!(dora_next(36), 40); // 1p -> 2p
    assert_eq!(dora_next(71), 36); // 9p -> 1p
    assert_eq!(dora_next(107), 72); // 9s -> 1s
    assert_eq!(dora_next(120), 108); // N -> E
    assert_eq!(dora_next(124), 128); // white -> green
    assert_eq!(dora_next(135), 124); // red -> white
}

#[test]
fn selection_takes_any_tile_id() {
    let actions = vec![
        Action::new(ActionType::Pon, Some(200), vec![201, 202]),
        Action::new(ActionType::Discard, Some(250), vec![]),
        Action::new(ActionType::Discard, Some(44), vec![]),
        Action::new(ActionType::Ron, Some(255), vec![]),
    ];
    assert_eq!(select_action(&actions, "dahai", "3p").unwrap().tile, Some(44));
    assert_eq!(select_action(&actions, "dahai", "C").unwrap().tile, Some(250));
    assert_eq!(select_action(&actions, "hora", "").unwrap().tile, Some(255));
    assert_eq!(select_action(&actions, "pon", "").unwrap().tile, Some(200));
}
