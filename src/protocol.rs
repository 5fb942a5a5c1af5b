//! The messages that travel between the server and its clients.
//!
//! On the wire each message is one line of JSON, an object whose `type` field names the
//! variant in snake_case; the other fields are the variant's own.

use crate::cards::Deck;
use vstd::prelude::*;

verus! {

/// Which side of a pairing a client plays; written on the wire as 0 or 1.
#[derive(Debug, Copy, Clone, PartialEq, Eq, Structural)]
pub enum PlayerId {
    P1,
    P2,
}

/// What a player tells the server about themselves, and what their opponent sees.
#[derive(Debug, Clone, PartialEq, Eq)]
pub struct PublicPlayerInfo {
    pub name: String,
}

/// A message from the server to a client.
#[derive(Debug, Clone, PartialEq, Eq)]
pub enum ServerMessage {
    /// Acknowledges the client's hello.
    HelloClient,
    /// Answers a [`ClientMessage::Ping`] with its number.
    Pong { number: usize },
    WaitForOpponent,
    /// The client has been paired: who the opponent is and which side the client plays.
    MatchFound { opp_info: PublicPlayerInfo, player_id: PlayerId },
    /// The opponent's connection closed during the match.
    OpponentDisconnected,
    StartWithTimeout { timeout: u32 },
}

/// A message from a client to the server.
#[derive(Debug, Clone, PartialEq, Eq)]
pub enum ClientMessage {
    /// The first message of every connection: who the player is.
    HelloServer { info: PublicPlayerInfo },
    /// A liveness check; the server answers with the same number.
    Ping { number: usize },
    /// Asks to be paired with an opponent.
    FindGame,
    Ready,
    ChosenDeck { deck: Deck },
}

impl PlayerId {
    /// The side's number on the wire: 0 for the first player, 1 for the second.
    pub open spec fn index(self) -> int {
        match self {
            PlayerId::P1 => 0,
            PlayerId::P2 => 1,
        }
    }

    /// The opposing side.
    pub open spec fn opponent(self) -> PlayerId {
        match self {
            PlayerId::P1 => PlayerId::P2,
            PlayerId::P2 => PlayerId::P1,
        }
    }

    /// The opposing side.
    pub fn other(&self) -> (r: PlayerId)
        ensures
            r == self.opponent(),
            r.index() == 1 - self.index(),
    {
        match self {
            PlayerId::P1 => PlayerId::P2,
            PlayerId::P2 => PlayerId::P1,
        }
    }
}

/// The player information carried by a hello, if `msg` is one.
pub open spec fn hello_info(msg: Option<ClientMessage>) -> Option<PublicPlayerInfo> {
    match msg {
        Some(ClientMessage::HelloServer { info }) => Some(info),
        _ => None,
    }
}

} // verus!
