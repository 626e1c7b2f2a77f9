//! Move legality for a chess-like board game.
//!
//! The crate is organised leaves first:
//!
//! * [`piece`] holds the data model (sides, piece kinds, squares) and the
//!   geometry that classifies a pair of squares into a direction;
//! * [`move_validators`] holds the per-kind shape predicates built on that
//!   classification;
//! * [`game_manager`] holds the board, single-move validation, the obstruction
//!   check, relocation of a piece and the enumeration of legal destinations.
//!
//! Every executable function carries a contract stated over the `spec`
//! functions that live beside it, and Verus checks the bodies against them.

pub mod piece;
pub mod move_validators;
pub mod game_manager;
