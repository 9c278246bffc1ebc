//! Choosing the legal action that an MJAI message describes.

use vstd::prelude::*;

use crate::action::{Action, ActionType};
use crate::events::{mjai_json_event, parse_mjai_event, str_eq, MjaiEventView};
use crate::parser::{spec_tid_to_mjai, tid_to_mjai};

verus! {

/// The kind of action that an MJAI message type asks for, where there is one
/// (`hora` and `none` are handled apart).
pub open spec fn spec_target_type(atype: Seq<char>) -> Option<ActionType> {
    if atype == "dahai"@ {
        Some(ActionType::Discard)
    } else if atype == "chi"@ {
        Some(ActionType::Chi)
    } else if atype == "pon"@ {
        Some(ActionType::Pon)
    } else if atype == "kakan"@ {
        Some(ActionType::Kakan)
    } else if atype == "daiminkan"@ {
        Some(ActionType::Daiminkan)
    } else if atype == "ankan"@ {
        Some(ActionType::Ankan)
    } else if atype == "reach"@ {
        Some(ActionType::Riichi)
    } else if atype == "ryukyoku"@ {
        Some(ActionType::KyushuKyuhai)
    } else {
        None
    }
}

/// Whether action `a` answers an MJAI message of type `atype` on tile `tile`:
/// `hora` takes a tsumo or ron; the other types take their kind of action,
/// whose tile in MJAI notation must be `tile` unless `tile` is empty; `none`
/// takes a pass.
pub open spec fn answers(a: Action, atype: Seq<char>, tile: Seq<char>) -> bool {
    if atype == "hora"@ {
        a.action_type == ActionType::Tsumo || a.action_type == ActionType::Ron
    } else if spec_target_type(atype) is Some {
        &&& a.action_type == spec_target_type(atype).unwrap()
        &&& (tile.len() == 0 || (a.tile matches Some(t) && spec_tid_to_mjai(t) == tile))
    } else if atype == "none"@ {
        a.action_type == ActionType::Pass
    } else {
        false
    }
}

/// The first position from `i` on whose action answers the message.
pub open spec fn first_answer(actions: Seq<Action>, atype: Seq<char>, tile: Seq<char>, i: int) -> Option<
    int,
>
    decreases actions.len() - i,
{
    if i >= actions.len() || i < 0 {
        None
    } else if answers(actions[i], atype, tile) {
        Some(i)
    } else {
        first_answer(actions, atype, tile, i + 1)
    }
}

/// The first position from `i` on whose action is of one of the kinds `kinds`.
pub open spec fn first_of_kinds(actions: Seq<Action>, kinds: Set<ActionType>, i: int) -> Option<int>
    decreases actions.len() - i,
{
    if i >= actions.len() || i < 0 {
        None
    } else if kinds.contains(actions[i].action_type) {
        Some(i)
    } else {
        first_of_kinds(actions, kinds, i + 1)
    }
}

proof fn lemma_first_answer_by_kind(
    actions: Seq<Action>,
    atype: Seq<char>,
    tile: Seq<char>,
    kinds: Set<ActionType>,
    i: int,
)
    requires
        forall|a: Action| #[trigger] answers(a, atype, tile) == kinds.contains(a.action_type),
    ensures
        first_answer(actions, atype, tile, i) == first_of_kinds(actions, kinds, i),
    decreases actions.len() - i,
{
    if 0 <= i < actions.len() {
        assert(answers(actions[i], atype, tile) == kinds.contains(actions[i].action_type));
        lemma_first_answer_by_kind(actions, atype, tile, kinds, i + 1);
    }
}

/// A message that names no tile selects the first legal action of the kind
/// its type names: `dahai` a discard, `chi` a chi, `pon` a pon, `kakan` an
/// added kan, `daiminkan` an open kan, `ankan` a closed kan, `reach` a riichi,
/// `ryukyoku` a nine-terminals draw, `hora` a tsumo or ron, `none` a pass.
pub proof fn lemma_message_kinds(actions: Seq<Action>)
    ensures
        first_answer(actions, "dahai"@, ""@, 0) == first_of_kinds(actions, set![ActionType::Discard], 0),
        first_answer(actions, "chi"@, ""@, 0) == first_of_kinds(actions, set![ActionType::Chi], 0),
        first_answer(actions, "pon"@, ""@, 0) == first_of_kinds(actions, set![ActionType::Pon], 0),
        first_answer(actions, "kakan"@, ""@, 0) == first_of_kinds(actions, set![ActionType::Kakan], 0),
        first_answer(actions, "daiminkan"@, ""@, 0) == first_of_kinds(
            actions,
            set![ActionType::Daiminkan],
            0,
        ),
        first_answer(actions, "ankan"@, ""@, 0) == first_of_kinds(actions, set![ActionType::Ankan], 0),
        first_answer(actions, "reach"@, ""@, 0) == first_of_kinds(actions, set![ActionType::Riichi], 0),
        first_answer(actions, "ryukyoku"@, ""@, 0) == first_of_kinds(
            actions,
            set![ActionType::KyushuKyuhai],
            0,
        ),
        first_answer(actions, "hora"@, ""@, 0) == first_of_kinds(
            actions,
            set![ActionType::Tsumo, ActionType::Ron],
            0,
        ),
        first_answer(actions, "none"@, ""@, 0) == first_of_kinds(actions, set![ActionType::Pass], 0),
{
    reveal_strlit("");
    reveal_strlit("dahai");
    reveal_strlit("chi");
    reveal_strlit("pon");
    reveal_strlit("kakan");
    reveal_strlit("daiminkan");
    reveal_strlit("ankan");
    reveal_strlit("reach");
    reveal_strlit("ryukyoku");
    reveal_strlit("hora");
    reveal_strlit("none");
    assert(""@.len() == 0);
    assert("dahai"@.len() == 5 && "dahai"@[0] == 'd');
    assert("chi"@.len() == 3 && "chi"@[0] == 'c');
    assert("pon"@.len() == 3 && "pon"@[0] == 'p');
    assert("kakan"@.len() == 5 && "kakan"@[0] == 'k');
    assert("daiminkan"@.len() == 9 && "daiminkan"@[0] == 'd');
    assert("ankan"@.len() == 5 && "ankan"@[0] == 'a');
    assert("reach"@.len() == 5 && "reach"@[0] == 'r');
    assert("ryukyoku"@.len() == 8 && "ryukyoku"@[0] == 'r');
    assert("hora"@.len() == 4 && "hora"@[0] == 'h');
    assert("none"@.len() == 4 && "none"@[0] == 'n');
    assert forall|k: ActionType, x: ActionType| #[trigger] set![k].contains(x) == (x == k) by {}
    assert forall|x: ActionType| #[trigger] set![ActionType::Tsumo, ActionType::Ron].contains(x) == (x
        == ActionType::Tsumo || x == ActionType::Ron) by {}
    lemma_first_answer_by_kind(actions, "dahai"@, ""@, set![ActionType::Discard], 0);
    lemma_first_answer_by_kind(actions, "chi"@, ""@, set![ActionType::Chi], 0);
    lemma_first_answer_by_kind(actions, "pon"@, ""@, set![ActionType::Pon], 0);
    lemma_first_answer_by_kind(actions, "kakan"@, ""@, set![ActionType::Kakan], 0);
    lemma_first_answer_by_kind(actions, "daiminkan"@, ""@, set![ActionType::Daiminkan], 0);
    lemma_first_answer_by_kind(actions, "ankan"@, ""@, set![ActionType::Ankan], 0);
    lemma_first_answer_by_kind(actions, "reach"@, ""@, set![ActionType::Riichi], 0);
    lemma_first_answer_by_kind(actions, "ryukyoku"@, ""@, set![ActionType::KyushuKyuhai], 0);
    lemma_first_answer_by_kind(actions, "hora"@, ""@, set![ActionType::Tsumo, ActionType::Ron], 0);
    lemma_first_answer_by_kind(actions, "none"@, ""@, set![ActionType::Pass], 0);
}

/// `r` is a copy of `a`.
pub open spec fn same_action(r: Action, a: Action) -> bool {
    r.action_type == a.action_type && r.tile == a.tile && r.consume_tiles@ == a.consume_tiles@
}

fn target_type(atype: &str) -> (r: Option<ActionType>)
    ensures
        r == spec_target_type(atype@),
{
    if str_eq(atype, "dahai") {
        Some(ActionType::Discard)
    } else if str_eq(atype, "chi") {
        Some(ActionType::Chi)
    } else if str_eq(atype, "pon") {
        Some(ActionType::Pon)
    } else if str_eq(atype, "kakan") {
        Some(ActionType::Kakan)
    } else if str_eq(atype, "daiminkan") {
        Some(ActionType::Daiminkan)
    } else if str_eq(atype, "ankan") {
        Some(ActionType::Ankan)
    } else if str_eq(atype, "reach") {
        Some(ActionType::Riichi)
    } else if str_eq(atype, "ryukyoku") {
        Some(ActionType::KyushuKyuhai)
    } else {
        None
    }
}

fn copy_action(a: &Action) -> (r: Action)
    ensures
        same_action(r, *a),
{
    let tiles = a.consume_tiles.clone();
    assert(tiles@ =~= a.consume_tiles@);
    Action { action_type: a.action_type, tile: a.tile, consume_tiles: tiles }
}

fn answers_exec(a: &Action, atype: &str, is_hora: bool, target: Option<ActionType>, is_none: bool, tile: &str) -> (r: bool)
    requires
        is_hora == (atype@ == "hora"@),
        target == spec_target_type(atype@),
        is_none == (atype@ == "none"@),
    ensures
        r == answers(*a, atype@, tile@),
{
    if is_hora {
        a.action_type == ActionType::Tsumo || a.action_type == ActionType::Ron
    } else {
        match target {
            Some(tt) => {
                if a.action_type != tt {
                    return false;
                }
                if tile.unicode_len() == 0 {
                    return true;
                }
                match a.tile {
                    Some(t) => {
                        let s = tid_to_mjai(t);
                        str_eq(s.as_str(), tile)
                    },
                    None => false,
                }
            },
            None => is_none && a.action_type == ActionType::Pass,
        }
    }
}

/// The first legal action that answers an MJAI message of type `atype` on
/// tile `tile` (see [`answers`]), copied; none where no action answers it.
pub fn select_action(actions: &Vec<Action>, atype: &str, tile: &str) -> (r: Option<Action>)
    ensures
        match first_answer(actions@, atype@, tile@, 0) {
            Some(i) => r matches Some(a) && same_action(a, actions@[i]),
            None => r is None,
        },
{
    let is_hora = str_eq(atype, "hora");
    let target = target_type(atype);
    let is_none = str_eq(atype, "none");
    let mut i: usize = 0;
    while i < actions.len()
        invariant
            0 <= i <= actions@.len(),
            is_hora == (atype@ == "hora"@),
            target == spec_target_type(atype@),
            is_none == (atype@ == "none"@),
            first_answer(actions@, atype@, tile@, 0) == first_answer(actions@, atype@, tile@, i as int),
        decreases actions@.len() - i,
    {
        if answers_exec(&actions[i], atype, is_hora, target, is_none, tile) {
            return Some(copy_action(&actions[i]));
        }
        i = i + 1;
    }
    None
}

/// The MJAI type and tile of a parsed message: the type where it is a string,
/// the tile where it is a string and empty otherwise.
pub open spec fn message_type_and_tile(e: Option<MjaiEventView>) -> Option<(Seq<char>, Seq<char>)> {
    match e {
        Some(v) => match v.event_type {
            Some(t) => Some(
                (
                    t,
                    match v.pai {
                        Some(p) => p,
                        None => seq![],
                    },
                ),
            ),
            None => None,
        },
        None => None,
    }
}

/// The legal action that an MJAI message in JSON text describes: none where
/// the text is not JSON or has no string type, otherwise [`select_action`]
/// on its type and tile.
pub fn select_action_from_mjai(actions: &Vec<Action>, mjai_json: &str) -> (r: Option<Action>)
    ensures
        match message_type_and_tile(mjai_json_event(mjai_json@)) {
            None => r is None,
            Some((atype, tile)) => match first_answer(actions@, atype, tile, 0) {
                Some(i) => r matches Some(a) && same_action(a, actions@[i]),
                None => r is None,
            },
        },
{
    let e = match parse_mjai_event(mjai_json) {
        Some(e) => e,
        None => {
            return None;
        },
    };
    let atype = match &e.event_type {
        Some(t) => t,
        None => {
            return None;
        },
    };
    let empty = String::new();
    let tile = match &e.pai {
        Some(p) => p,
        None => &empty,
    };
    select_action(actions, atype.as_str(), tile.as_str())
}

} // verus!
