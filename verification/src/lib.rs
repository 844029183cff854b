//! A mutable chess position for a search driver: piece and square encoding,
//! move application with exact reversal, position-descriptor decoding and a
//! cheap draw heuristic.

pub mod def;
pub mod util;
pub mod moves;
pub mod fen;
pub mod state;
pub mod lemmas;
