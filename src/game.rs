//! The per-match coordinator.
//!
//! A game task asks both paired client tasks for their connections, announces the match to
//! both players, then relays: it waits on both connections and feeds what it sees to its
//! [`GameSession`]. When the relay ends it tells both client tasks that the game is over.

use crate::protocol::{ClientMessage, PlayerId, ServerMessage};
use crate::registry::{ClientId, RegistryView, SharedState};
use crate::session::GameEvent;
use vstd::prelude::*;

verus! {

/// The life of a match.
#[derive(Debug, Copy, Clone, PartialEq, Eq, Structural)]
pub enum GamePhase {
    /// Waiting for both client tasks to hand over their connections.
    AwaitingConnections,
    /// Both players have been told of the match; their messages are relayed.
    Active,
    /// Over; nothing is relayed any more.
    Ended,
}

/// What the relay saw on one player's connection.
#[derive(Debug, Clone)]
pub enum RelayEvent {
    /// A message from that player.
    Message(ClientMessage),
    /// The connection reached its end.
    Closed,
    /// Reading the connection failed, or what it held was not a message.
    Failed,
}

/// What the game task does after a relay event.
#[derive(Debug, Copy, Clone, PartialEq, Eq, Structural)]
pub enum RelayAction {
    /// Keep relaying.
    Continue,
    /// Send [`ServerMessage::OpponentDisconnected`] to this side, then end the match.
    NotifyOpponent(PlayerId),
    /// The match is over already: nothing to do.
    Done,
}

/// One match between two paired clients; `players[0]` plays the first side. `dropped` is the
/// side whose connection failed during the match, if one did: the game task shuts that
/// connection, so its client task ends once it is back from the match.
#[derive(Debug, Copy, Clone)]
pub struct GameSession {
    pub players: [ClientId; 2],
    pub phase: GamePhase,
    pub dropped: Option<PlayerId>,
}

/// The client that plays `side` of a match between `players`.
pub open spec fn player_on(players: [ClientId; 2], side: PlayerId) -> ClientId {
    players@[side.index()]
}

/// The match announcements for the two sides: each names the other side's player and the
/// side's own number. There are none unless both players have a record.
pub open spec fn announcements<S>(players: [ClientId; 2], reg: RegistryView<S>) -> Option<
    (ServerMessage, ServerMessage),
> {
    let (a, b) = (players@[0], players@[1]);
    if reg.players.contains_key(a) && reg.players.contains_key(b) {
        Some(
            (
                ServerMessage::MatchFound { opp_info: reg.players[b], player_id: PlayerId::P1 },
                ServerMessage::MatchFound { opp_info: reg.players[a], player_id: PlayerId::P2 },
            ),
        )
    } else {
        None
    }
}

/// One relay event on the connection of `side`. While the match is active, a message changes
/// nothing, and a closed or failed connection ends the match with a notice to the opponent.
/// Once the match is no longer active nothing happens.
pub open spec fn relay_step(phase: GamePhase, side: PlayerId, ev: RelayEvent) -> (
    GamePhase,
    RelayAction,
) {
    if phase == GamePhase::Active {
        match ev {
            RelayEvent::Message(_) => (GamePhase::Active, RelayAction::Continue),
            _ => (GamePhase::Ended, RelayAction::NotifyOpponent(side.opponent())),
        }
    } else {
        (phase, RelayAction::Done)
    }
}

/// The side to disconnect after a relay event on `side`: the side whose connection failed
/// while the match was active; otherwise as before.
pub open spec fn dropped_after(
    dropped: Option<PlayerId>,
    phase: GamePhase,
    side: PlayerId,
    ev: RelayEvent,
) -> Option<PlayerId> {
    if phase == GamePhase::Active && ev is Failed {
        Some(side)
    } else {
        dropped
    }
}


/// The actions of a run of relay events, starting in `phase`.
pub open spec fn relay_run(phase: GamePhase, events: Seq<(PlayerId, RelayEvent)>) -> Seq<
    RelayAction,
>
    decreases events.len(),
{
    if events.len() == 0 {
        Seq::empty()
    } else {
        let (next, action) = relay_step(phase, events[0].0, events[0].1);
        seq![action].add(relay_run(next, events.drop_first()))
    }
}

/// Once a match has ended, no run of relay events does anything.
proof fn ended_relay_does_nothing(events: Seq<(PlayerId, RelayEvent)>)
    ensures
        relay_run(GamePhase::Ended, events) == Seq::new(events.len(), |i: int| RelayAction::Done),
    decreases events.len(),
{
    if events.len() > 0 {
        ended_relay_does_nothing(events.drop_first());
    }
    assert(relay_run(GamePhase::Ended, events) =~= Seq::new(
        events.len(),
        |i: int| RelayAction::Done,
    ));
}

/// When one connection of an active match closes or fails, the other side is sent exactly one
/// disconnect notice and nothing is relayed after it, whatever else arrives.
pub proof fn single_disconnect_notice(
    side: PlayerId,
    ev: RelayEvent,
    rest: Seq<(PlayerId, RelayEvent)>,
)
    requires
        ev is Closed || ev is Failed,
    ensures
        relay_run(GamePhase::Active, seq![(side, ev)].add(rest)) == seq![
            RelayAction::NotifyOpponent(side.opponent()),
        ].add(Seq::new(rest.len(), |i: int| RelayAction::Done)),
{
    let events = seq![(side, ev)].add(rest);
    assert(events.drop_first() == rest);
    ended_relay_does_nothing(rest);
}

impl GameSession {
    /// A match between `players`, waiting for their connections.
    pub fn new(players: [ClientId; 2]) -> (r: GameSession)
        ensures
            r.players == players,
            r.phase == GamePhase::AwaitingConnections,
            r.dropped is None,
    {
        GameSession { players, phase: GamePhase::AwaitingConnections, dropped: None }
    }

    /// The client that plays `side`.
    pub fn player(&self, side: PlayerId) -> (r: ClientId)
        ensures
            r == player_on(self.players, side),
    {
        match side {
            PlayerId::P1 => self.players[0],
            PlayerId::P2 => self.players[1],
        }
    }

    /// The event channels of both players, first side first; `None` when either is missing,
    /// which means a teardown raced the pairing.
    pub fn channels<'a, S>(&self, shared: &'a SharedState<S>) -> (r: Option<(&'a S, &'a S)>)
        ensures
            r == (if shared@.channels.contains_key(self.players@[0])
                && shared@.channels.contains_key(self.players@[1]) {
                Some((&shared@.channels[self.players@[0]], &shared@.channels[self.players@[1]]))
            } else {
                None
            }),
    {
        match (shared.channel(self.players[0]), shared.channel(self.players[1])) {
            (Some(a), Some(b)) => Some((a, b)),
            _ => None,
        }
    }

    /// Both connections have been handed over: returns the announcements to write to the two
    /// sides (see [`announcements`]) and makes the match active. Returns `None` and changes
    /// nothing when the match was not waiting for connections or a player record is missing.
    pub fn connections_ready<S>(&mut self, shared: &SharedState<S>) -> (r: Option<
        (ServerMessage, ServerMessage),
    >)
        ensures
            final(self).players == old(self).players,
            final(self).dropped == old(self).dropped,
            old(self).phase == GamePhase::AwaitingConnections ==> r == announcements(
                old(self).players,
                shared@,
            ),
            old(self).phase != GamePhase::AwaitingConnections ==> r is None,
            final(self).phase == (if r is Some {
                GamePhase::Active
            } else {
                old(self).phase
            }),
    {
        if self.phase != GamePhase::AwaitingConnections {
            return None;
        }
        match (shared.player_info(self.players[0]), shared.player_info(self.players[1])) {
            (Some(a), Some(b)) => {
                self.phase = GamePhase::Active;
                Some(
                    (
                        ServerMessage::MatchFound { opp_info: b, player_id: PlayerId::P1 },
                        ServerMessage::MatchFound { opp_info: a, player_id: PlayerId::P2 },
                    ),
                )
            },
            _ => None,
        }
    }

    /// Handles a relay event on the connection of `side`; see [`relay_step`].
    pub fn on_relay(&mut self, side: PlayerId, ev: &RelayEvent) -> (r: RelayAction)
        ensures
            final(self).players == old(self).players,
            (final(self).phase, r) == relay_step(old(self).phase, side, *ev),
            final(self).dropped == dropped_after(old(self).dropped, old(self).phase, side, *ev),
    {
        if self.phase != GamePhase::Active {
            return RelayAction::Done;
        }
        match ev {
            RelayEvent::Message(_) => RelayAction::Continue,
            RelayEvent::Closed => {
                self.phase = GamePhase::Ended;
                RelayAction::NotifyOpponent(side.other())
            },
            RelayEvent::Failed => {
                self.phase = GamePhase::Ended;
                self.dropped = Some(side);
                RelayAction::NotifyOpponent(side.other())
            },
        }
    }

    /// Ends the match, however it came to an end, normally or on an error; returns the events
    /// for the first and the second side's client task: both are told that the game is over.
    pub fn finish<R>(&mut self) -> (r: (GameEvent<R>, GameEvent<R>))
        ensures
            final(self).players == old(self).players,
            final(self).dropped == old(self).dropped,
            final(self).phase == GamePhase::Ended,
            r == (GameEvent::<R>::GameEnded, GameEvent::<R>::GameEnded),
    {
        self.phase = GamePhase::Ended;
        (GameEvent::GameEnded, GameEvent::GameEnded)
    }
}

} // verus!
