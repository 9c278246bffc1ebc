//! Player actions.

use vstd::prelude::*;

verus! {

/// Kinds of player actions.
#[derive(Debug, Clone, Copy, PartialEq, Eq, Structural)]
pub enum ActionType {
    Discard,
    Chi,
    Pon,
    Daiminkan,
    Ron,
    Riichi,
    Tsumo,
    Pass,
    Ankan,
    Kakan,
    KyushuKyuhai,
    Kita,
}

/// An action: its kind, the tile it plays or claims, and the tiles it takes from the hand.
#[derive(Debug, Clone)]
pub struct Action {
    pub action_type: ActionType,
    pub tile: Option<u8>,
    pub consume_tiles: Vec<u8>,
}

impl Action {
    /// Builds an action from its parts.
    pub fn new(action_type: ActionType, tile: Option<u8>, consume_tiles: Vec<u8>) -> (a: Self)
        ensures
            a.action_type == action_type,
            a.tile == tile,
            a.consume_tiles@ == consume_tiles@,
    {
        Action { action_type, tile, consume_tiles }
    }
}

} // verus!
