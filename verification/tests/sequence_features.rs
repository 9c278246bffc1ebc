use riichienv::sequence_features::{
    encode_chi, encode_pon, relative_from, tile_id_to_kan37, SPARSE_VOCAB_SIZE,
};

#[test]
fn test_tile_id_to_kan37() {
    // Red fives
    assert_eq!(tile_id_to_kan37(16), 0); // red 5m → 0
    assert_eq!(tile_id_to_kan37(52), 10); // red 5p → 10
    assert_eq!(tile_id_to_kan37(88), 20); // red 5s → 20

    // 1m (tile_id 0-3, type 0) → kan37 = 1
    assert_eq!(tile_id_to_kan37(0), 1);
    assert_eq!(tile_id_to_kan37(3), 1);

    // 5m non-red (tile_id 17-19, type 4) → kan37 = 5
    assert_eq!(tile_id_to_kan37(17), 5);

    // 9m (tile_id 32-35, type 8) → kan37 = 9
    assert_eq!(tile_id_to_kan37(32), 9);

    // 1p (tile_id 36-39, type 9) → kan37 = 11
    assert_eq!(tile_id_to_kan37(36), 11);

    // 1s (tile_id 72-75, type 18) → kan37 = 21
    assert_eq!(tile_id_to_kan37(72), 21);

    // East wind (tile_id 108-111, type 27) → kan37 = 30
    assert_eq!(tile_id_to_kan37(108), 30);

    // Chun / Red dragon (tile_id 132-135, type 33) → kan37 = 36
    assert_eq!(tile_id_to_kan37(132), 36);
}

#[test]
fn test_relative_from() {
    // Player 0 calling from player 3 → kamicha (left) = 2
    assert_eq!(relative_from(0, 3), 2);
    // Player 0 calling from player 1 → shimocha (right) = 0
    assert_eq!(relative_from(0, 1), 0);
    // Player 0 calling from player 2 → toimen (across) = 1
    assert_eq!(relative_from(0, 2), 1);
    // Player 2 calling from player 3 → shimocha = 0
    assert_eq!(relative_from(2, 3), 0);
}

#[test]
fn test_encode_chi_basic() {
    // Chi: 1m-2m-3m, called 1m from discard
    let consumed = [4u8, 8]; // 2m, 3m from hand
    let called = 0u8; // 1m called
    let enc = encode_chi(&consumed, called);
    assert_eq!(enc, 0); // suit_offset=0, base=0, sub=0

    // Chi: 1m-2m-3m, called 2m
    let consumed = [0u8, 8]; // 1m, 3m from hand
    let called = 4u8; // 2m called
    let enc = encode_chi(&consumed, called);
    assert_eq!(enc, 1); // sub=1 (middle)
}

#[test]
fn test_encode_pon_honor() {
    // Pon: East wind
    let consumed = [109u8, 110];
    let called = 108u8;
    let enc = encode_pon(&consumed, called);
    assert_eq!(enc, 33); // first honor
}

#[test]
fn test_encode_pon_five_red() {
    // Pon: 5m with red five in consumed
    let consumed = [16u8, 17]; // red 5m + normal 5m
    let called = 18u8; // normal 5m called
    let enc = encode_pon(&consumed, called);
    assert_eq!(enc, 5); // 0 + 4 + 1

    // Pon: 5m with red five called
    let consumed = [17u8, 18];
    let called = 16u8; // red 5m called
    let enc = encode_pon(&consumed, called);
    assert_eq!(enc, 6); // 0 + 4 + 2
}

#[test]
fn test_sparse_vocab_bounds() {
    // Verify all sparse offsets are within vocab
    assert!(441 < SPARSE_VOCAB_SIZE as u16);

    // Dora max: 83 + 4*37 + 36 = 267
    assert!(83 + 4 * 37 + 36 < SPARSE_VOCAB_SIZE as u16);

    // Hand max: 268 + 135 = 403
    assert!(268 + 135 < SPARSE_VOCAB_SIZE as u16);

    // Drawn tile max: 404 + 36 = 440
    assert!(404 + 36 < SPARSE_VOCAB_SIZE as u16);
}

#[test]
fn test_progression_type_bounds() {
    // Verify type indices stay within PROG_DIMS[1] = 277
    assert!(1 + 36 <= 276); // dahai max: 1 + 36 = 37
    assert!(38 + 89 <= 276); // chi max: 38 + 89 = 127
    assert!(128 + 39 <= 276); // pon max: 128 + 39 = 167
    assert!(168 + 36 <= 276); // daiminkan max: 168 + 36 = 204
    assert!(205 + 33 <= 276); // ankan max: 205 + 33 = 238
    assert!(239 + 36 <= 276); // kakan max: 239 + 36 = 275
}

#[test]
fn test_candidate_type_bounds() {
    // Verify type indices stay within CAND_DIMS[0] = 280
    assert!(36 < 280); // discard max: 36
    assert!(37 + 33 < 280); // ankan max: 70
    assert!(71 + 36 < 280); // kakan max: 107
    assert!(108 < 280); // tsumo
    assert!(109 < 280); // kyushu
    assert!(110 < 280); // pass
    assert!(111 + 89 < 280); // chi max: 200
    assert!(201 + 39 < 280); // pon max: 240
    assert!(241 + 36 < 280); // daiminkan max: 277
    assert!(278 < 280); // ron
}
