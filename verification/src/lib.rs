//! Mahjong tile and feature-encoding library: hands, melds, walls and the
//! sequence features handed to learning models, each with a verified contract.

pub mod errors;
pub mod types;
pub mod sequence_features;
pub mod parser;
pub mod events;
pub mod text;
pub mod action;
pub mod observation;
pub mod selection;
pub mod wall;
pub mod riichi;
pub mod ranking;
pub mod replay;
pub mod mjsoul;
