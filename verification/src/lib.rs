//! Verified core of a two-player tic-tac-toe game server.
//!
//! The library holds the referee logic of the server: the move engine that
//! validates a move and detects a finished game, the per-session state machine
//! that turns inbound participant events into replies and win/loss credits,
//! and the FIFO matchmaking queue that pairs waiting tickets. The surrounding
//! process (HTTP entry, websockets, the account database) lives outside the
//! library and exchanges plain values with it.

pub mod account;
pub mod game;
pub mod queue;
pub mod session;
