//! The per-connection protocol state machine.
//!
//! A client task feeds each transport message and each internal event to its
//! [`ClientSession`], performs the action that comes back, and tears the client down with
//! [`SharedState::remove_connection`] when the connection ends for any reason.

use crate::protocol::{hello_info, ClientMessage, PublicPlayerInfo, ServerMessage};
use crate::registry::{ClientId, RegistryView, SharedState};
use vstd::prelude::*;

verus! {

/// Where a connected, handshaken client stands.
#[derive(Debug, Copy, Clone, PartialEq, Eq, Structural)]
pub enum ClientState {
    /// Idle; may ask for a game.
    InLobby,
    /// Waiting to be paired, or paired and waiting for the match to claim the connection.
    Matchmaking,
    /// A game session drives the connection; the client task only waits for the match's end.
    InGame,
}

/// An internal event delivered to a client task. `R` is the one-shot reply slot through which
/// the client hands its connection to the game session.
pub enum GameEvent<R> {
    /// The client has been paired; its connection is wanted through the reply slot.
    MatchFound(R),
    /// The match is over and the client goes back to the lobby.
    GameEnded,
}

/// What the client task does after a message from its client.
#[derive(Debug, Copy, Clone, PartialEq, Eq, Structural)]
pub enum LobbyAction {
    /// The message does not fit the current state; log it and go on.
    Ignore,
    /// The client took the hotseat and waits for an opponent.
    Wait,
    /// The client was paired: start a game session for the requester and its opponent.
    StartGame(ClientId, ClientId),
}

/// What the client task does after an internal event.
pub enum EventAction<R> {
    /// Send the shared connection through this reply slot, then wait for the match to end.
    HandOver(R),
    /// The match is over: read from the client again.
    Resume,
    /// Nothing changes.
    Continue,
    /// The event cannot happen in the current state: an internal fault, the task aborts.
    Abort,
}

/// The protocol state of one connected, handshaken client.
#[derive(Debug, Copy, Clone, PartialEq, Eq, Structural)]
pub struct ClientSession {
    pub id: ClientId,
    pub state: ClientState,
}

/// The handshake: the first message (`None` when the connection closed first) must be a hello.
/// On a hello the client is registered with `sender` as its channel, and the session starts in
/// the lobby, owing the client a hello in reply; on anything else the registry is untouched.
pub open spec fn handshake_step<S>(
    reg: RegistryView<S>,
    id: ClientId,
    first: Option<ClientMessage>,
    sender: S,
) -> (RegistryView<S>, Option<(ClientSession, ServerMessage)>) {
    match hello_info(first) {
        Some(info) => (
            reg.register(id, info, sender),
            Some((ClientSession { id, state: ClientState::InLobby }, ServerMessage::HelloClient)),
        ),
        None => (reg, None),
    }
}

/// A message from the client: a game request in the lobby goes to matchmaking and takes the
/// hotseat or pairs with whoever waits there (the requester first); anything else is ignored.
pub open spec fn message_step<S>(
    s: ClientSession,
    reg: RegistryView<S>,
    msg: ClientMessage,
) -> (ClientSession, RegistryView<S>, LobbyAction) {
    if msg is FindGame && s.state == ClientState::InLobby {
        let (reg2, paired) = reg.find_game(s.id);
        let action = match paired {
            None => LobbyAction::Wait,
            Some(other) => LobbyAction::StartGame(s.id, other),
        };
        (ClientSession { state: ClientState::Matchmaking, ..s }, reg2, action)
    } else {
        (s, reg, LobbyAction::Ignore)
    }
}

/// An internal event, or `None` when the event channel has closed. A match found while
/// matchmaking claims the connection; a match's end while in game returns to the lobby, as
/// does a closed channel while in game; every other event is an internal fault.
pub open spec fn event_step<R>(s: ClientSession, ev: Option<GameEvent<R>>) -> (
    ClientSession,
    EventAction<R>,
) {
    match (ev, s.state) {
        (Some(GameEvent::MatchFound(reply)), ClientState::Matchmaking) => (
            ClientSession { state: ClientState::InGame, ..s },
            EventAction::HandOver(reply),
        ),
        (Some(GameEvent::GameEnded), ClientState::InGame) => (
            ClientSession { state: ClientState::InLobby, ..s },
            EventAction::Resume,
        ),
        (None, ClientState::InGame) => (
            ClientSession { state: ClientState::InLobby, ..s },
            EventAction::Resume,
        ),
        (None, _) => (s, EventAction::Continue),
        (Some(_), _) => (s, EventAction::Abort),
    }
}

/// A connection that ends, or says anything but hello, before its handshake leaves no trace:
/// it is not registered by the handshake, and it is absent after its teardown.
pub proof fn unfinished_handshake_leaves_no_trace<S>(
    reg: RegistryView<S>,
    id: ClientId,
    first: Option<ClientMessage>,
    sender: S,
)
    requires
        hello_info(first) is None,
        !reg.players.contains_key(id),
        !reg.channels.contains_key(id),
    ensures
        handshake_step(reg, id, first, sender) == (reg, None::<(ClientSession, ServerMessage)>),
        !reg.remove(id).players.contains_key(id),
        !reg.remove(id).channels.contains_key(id),
{
}

/// A client whose hello reply cannot be sent is torn down at once: after the handshake and the
/// teardown it has neither a player record nor a channel, and the hotseat is as it was.
pub proof fn failed_hello_reply_leaves_no_trace<S>(
    reg: RegistryView<S>,
    id: ClientId,
    info: PublicPlayerInfo,
    sender: S,
)
    requires
        reg.wf(),
        !reg.players.contains_key(id),
        !reg.channels.contains_key(id),
    ensures
        ({
            let after = handshake_step(
                reg,
                id,
                Some(ClientMessage::HelloServer { info }),
                sender,
            ).0.remove(id);
            &&& after.players == reg.players
            &&& after.channels == reg.channels
            &&& after.hotseat == reg.hotseat
        }),
{
    let registered = reg.register(id, info, sender);
    assert(registered.remove(id).players =~= reg.players);
    assert(registered.remove(id).channels =~= reg.channels);
}

/// Game requests from the clients of `sessions`, in that order, each handled before the next:
/// the registry afterwards and the action each request led to.
pub open spec fn lobby_requests<S>(reg: RegistryView<S>, sessions: Seq<ClientSession>) -> (
    RegistryView<S>,
    Seq<LobbyAction>,
)
    decreases sessions.len(),
{
    if sessions.len() == 0 {
        (reg, Seq::empty())
    } else {
        let (before, actions) = lobby_requests(reg, sessions.drop_last());
        let (_, after, action) = message_step(sessions.last(), before, ClientMessage::FindGame);
        (after, actions.push(action))
    }
}

/// Game sessions are started in pairs, in arrival order. From an empty hotseat, when clients
/// in the lobby ask for a game one after another, the first of each two waits and the second
/// starts a game with it; the hotseat is empty after each pairing and holds the last client
/// when an odd number asked.
pub proof fn games_start_in_arrival_order<S>(reg: RegistryView<S>, sessions: Seq<ClientSession>)
    requires
        reg.hotseat is None,
        forall|k: int| 0 <= k < sessions.len() ==> (#[trigger] sessions[k]).state
            == ClientState::InLobby,
    ensures
        lobby_requests(reg, sessions).1.len() == sessions.len(),
        forall|k: int|
            0 <= k < sessions.len() ==> #[trigger] lobby_requests(reg, sessions).1[k] == (if k % 2
                == 0 {
                LobbyAction::Wait
            } else {
                LobbyAction::StartGame(sessions[k].id, sessions[k - 1].id)
            }),
        lobby_requests(reg, sessions).0 == (RegistryView {
            hotseat: if sessions.len() % 2 == 0 {
                None
            } else {
                Some(sessions.last().id)
            },
            ..reg
        }),
    decreases sessions.len(),
{
    if sessions.len() > 0 {
        let prefix = sessions.drop_last();
        assert forall|k: int| 0 <= k < prefix.len() implies (#[trigger] prefix[k]).state
            == ClientState::InLobby by {
            assert(prefix[k] == sessions[k]);
        }
        games_start_in_arrival_order(reg, prefix);
        if prefix.len() > 0 {
            assert(prefix.last() == sessions[sessions.len() - 2]);
        }
        assert(sessions.last().state == ClientState::InLobby);
    }
}

/// When its match is over a client is back in the lobby, from where a new game request is
/// taken up again: it goes to matchmaking, waiting on the hotseat or paired at once.
pub proof fn game_end_returns_to_lobby<S, R>(s: ClientSession, reg: RegistryView<S>)
    requires
        s.state == ClientState::InGame,
        reg.is_registered(s.id),
    ensures
        event_step(s, Some(GameEvent::<R>::GameEnded)).0 == (ClientSession {
            state: ClientState::InLobby,
            ..s
        }),
        event_step(s, Some(GameEvent::<R>::GameEnded)).1 is Resume,
        ({
            let back = event_step(s, Some(GameEvent::<R>::GameEnded)).0;
            let (next, reg2, action) = message_step(back, reg, ClientMessage::FindGame);
            &&& next.state == ClientState::Matchmaking
            &&& action != LobbyAction::Ignore
            &&& (reg2, action is Wait) == (reg.find_game(s.id).0, reg.find_game(s.id).1 is None)
        }),
{
}

impl ClientSession {
    /// Runs the handshake of client `id` on its first message; see [`handshake_step`].
    /// Returns the new session and the reply it owes the client.
    pub fn handshake<S>(
        shared: &mut SharedState<S>,
        id: ClientId,
        first: Option<ClientMessage>,
        sender: S,
    ) -> (r: Option<(ClientSession, ServerMessage)>)
        requires
            old(shared).wf(),
        ensures
            final(shared).wf(),
            (final(shared)@, r) == handshake_step(old(shared)@, id, first, sender),
    {
        match first {
            Some(ClientMessage::HelloServer { info }) => {
                shared.register_player(id, info, sender);
                Some((ClientSession { id, state: ClientState::InLobby }, ServerMessage::HelloClient))
            },
            _ => None,
        }
    }

    /// Whether the task reads from the client: it stops while a game session drives the
    /// connection.
    pub fn reads_client(&self) -> (r: bool)
        ensures
            r == (self.state != ClientState::InGame),
    {
        match self.state {
            ClientState::InGame => false,
            _ => true,
        }
    }

    /// Handles a message from the client; see [`message_step`].
    pub fn on_message<S>(&mut self, shared: &mut SharedState<S>, msg: &ClientMessage) -> (r:
        LobbyAction)
        requires
            old(shared).wf(),
            old(shared)@.is_registered(old(self).id),
        ensures
            final(shared).wf(),
            (*final(self), final(shared)@, r) == message_step(*old(self), old(shared)@, *msg),
    {
        match (msg, self.state) {
            (ClientMessage::FindGame, ClientState::InLobby) => {
                self.state = ClientState::Matchmaking;
                match shared.find_game(self.id) {
                    None => LobbyAction::Wait,
                    Some(other) => LobbyAction::StartGame(self.id, other),
                }
            },
            _ => LobbyAction::Ignore,
        }
    }

    /// Handles an internal event; see [`event_step`].
    pub fn on_event<R>(&mut self, ev: Option<GameEvent<R>>) -> (r: EventAction<R>)
        ensures
            (*final(self), r) == event_step(*old(self), ev),
    {
        match (ev, self.state) {
            (Some(GameEvent::MatchFound(reply)), ClientState::Matchmaking) => {
                self.state = ClientState::InGame;
                EventAction::HandOver(reply)
            },
            (Some(GameEvent::GameEnded), ClientState::InGame) => {
                self.state = ClientState::InLobby;
                EventAction::Resume
            },
            (None, ClientState::InGame) => {
                self.state = ClientState::InLobby;
                EventAction::Resume
            },
            (None, _) => EventAction::Continue,
            (Some(_), _) => EventAction::Abort,
        }
    }

    /// The game session could not take the connection (it had already gone): the client
    /// returns to the lobby.
    pub fn handover_failed(&mut self)
        ensures
            *final(self) == (ClientSession { state: ClientState::InLobby, ..*old(self) }),
    {
        self.state = ClientState::InLobby;
    }
}

} // verus!
