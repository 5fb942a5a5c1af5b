//! Matchmaking and session hand-off for a two-player, turn-based card game server.
//!
//! The library holds the wire protocol's message types, the shared matchmaking registry
//! (players, event channels and the single-slot hotseat), and the two per-task state machines
//! that drive the server: one per client connection, one per match. The server binary around
//! it performs the socket and channel work and feeds each state machine the events it sees.

pub mod board;
pub mod cards;
pub mod protocol;
pub mod registry;
pub mod session;
pub mod game;





