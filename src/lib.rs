//! A chess variant with spells: the game-state engine. Boards, moves, the
//! spell inventory and the cast ledgers are immutable values; moves are
//! checked against the legal moves of the position, spells act through a
//! shared capability interface, and pointer positions map to squares of a
//! board drawn flipped.
pub mod board;
pub mod game;
pub mod inventory;
pub mod moves;
pub mod position;
pub mod seqs;
pub mod spell;
pub mod square;
pub mod warrior;
