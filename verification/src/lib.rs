//! Turn synchronisation for a two-player game on a small grid.
//!
//! Two peers each move a token on the board and tell each other about every
//! move with a two-byte packet. The modules hold the board and its moves, the
//! wire format of a move, the state machine that makes the peers take turns,
//! and the reading of the start-up arguments. Nothing here touches a socket or
//! a window: the caller reads and writes, and hands the outcome in.

pub mod board;
pub mod codec;
pub mod input;
pub mod laws;
pub mod startup;
pub mod turn;
