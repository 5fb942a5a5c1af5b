//! The process-wide matchmaking registry: who is connected, how to reach each client's task,
//! and who (if anyone) waits on the hotseat for an opponent.

use crate::protocol::PublicPlayerInfo;
use std::collections::HashMap;
use vstd::prelude::*;

verus! {

broadcast use vstd::std_specs::hash::group_hash_axioms;

/// Identifies one live connection; the server hands out a fresh one per accepted socket.
pub type ClientId = u64;

/// The registry as a mathematical value. `S` is the sending half of a client's event channel.
pub ghost struct RegistryView<S> {
    pub players: Map<ClientId, PublicPlayerInfo>,
    pub channels: Map<ClientId, S>,
    pub hotseat: Option<ClientId>,
}

impl<S> RegistryView<S> {
    /// The registry of a server that has just started.
    pub open spec fn empty() -> Self {
        RegistryView { players: Map::empty(), channels: Map::empty(), hotseat: None }
    }

    /// Whether `id` has both a player record and an event channel.
    pub open spec fn is_registered(self, id: ClientId) -> bool {
        self.players.contains_key(id) && self.channels.contains_key(id)
    }

    /// Whoever waits on the hotseat is registered.
    pub open spec fn wf(self) -> bool {
        self.hotseat matches Some(h) ==> self.is_registered(h)
    }

    /// Records a client that has completed the handshake.
    pub open spec fn register(self, id: ClientId, info: PublicPlayerInfo, sender: S) -> Self {
        RegistryView {
            players: self.players.insert(id, info),
            channels: self.channels.insert(id, sender),
            hotseat: self.hotseat,
        }
    }

    /// Forgets everything about `id`, including its seat on the hotseat.
    pub open spec fn remove(self, id: ClientId) -> Self {
        RegistryView {
            players: self.players.remove(id),
            channels: self.channels.remove(id),
            hotseat: if self.hotseat == Some(id) { None } else { self.hotseat },
        }
    }

    /// A matchmaking request from `id`: with the hotseat empty, `id` takes it and nobody is
    /// paired; otherwise the one waiting there leaves it and is paired with `id`.
    pub open spec fn find_game(self, id: ClientId) -> (Self, Option<ClientId>) {
        match self.hotseat {
            None => (RegistryView { hotseat: Some(id), ..self }, None),
            Some(other) => (RegistryView { hotseat: None, ..self }, Some(other)),
        }
    }

    /// Matchmaking requests from `ids`, in that order: the registry afterwards and the outcome
    /// of each request.
    pub open spec fn find_games(self, ids: Seq<ClientId>) -> (Self, Seq<Option<ClientId>>)
        decreases ids.len(),
    {
        if ids.len() == 0 {
            (self, Seq::empty())
        } else {
            let (before, outcomes) = self.find_games(ids.drop_last());
            let (after, outcome) = before.find_game(ids.last());
            (after, outcomes.push(outcome))
        }
    }
}

/// Requests pair up in arrival order. From an empty hotseat, of any run of matchmaking
/// requests the first of each two takes the hotseat and the second is paired with it; after
/// each pairing the hotseat is empty again, and nothing but the hotseat changes.
pub proof fn pairing_in_arrival_order<S>(reg: RegistryView<S>, ids: Seq<ClientId>)
    requires
        reg.hotseat is None,
    ensures
        reg.find_games(ids).1.len() == ids.len(),
        forall|k: int|
            0 <= k < ids.len() ==> #[trigger] reg.find_games(ids).1[k] == (if k % 2 == 0 {
                None
            } else {
                Some(ids[k - 1])
            }),
        forall|n: int|
            0 <= n <= ids.len() ==> #[trigger] reg.find_games(ids.take(n)).0 == (RegistryView {
                hotseat: if n % 2 == 0 {
                    None
                } else {
                    Some(ids[n - 1])
                },
                ..reg
            }),
    decreases ids.len(),
{
    let prefix = ids.drop_last();
    if ids.len() > 0 {
        pairing_in_arrival_order(reg, prefix);
        assert(prefix.take(prefix.len() as int) == prefix);
    }
    assert forall|n: int| 0 <= n <= ids.len() implies #[trigger] reg.find_games(ids.take(n)).0
        == (RegistryView {
        hotseat: if n % 2 == 0 {
            None
        } else {
            Some(ids[n - 1])
        },
        ..reg
    }) by {
        if n < ids.len() {
            assert(ids.take(n) == prefix.take(n));
        } else if n > 0 {
            assert(ids.take(n) == ids);
            assert(prefix.take(n - 1) == prefix);
        }
    }
}

/// A client that asks for a game while the hotseat is empty is left waiting there, and once
/// it is torn down the hotseat is empty again: no seat outlives its client.
pub proof fn hotseat_cleared_by_teardown<S>(reg: RegistryView<S>, a: ClientId)
    requires
        reg.hotseat is None,
    ensures
        reg.find_game(a).1 is None,
        reg.find_game(a).0.hotseat == Some(a),
        reg.find_game(a).0.remove(a).hotseat is None,
        forall|r: RegistryView<S>| r.hotseat == Some(a) ==> (#[trigger] r.remove(a)).hotseat is None,
{
}

/// The matchmaking registry shared by every task of the server.
pub struct SharedState<S> {
    players: HashMap<ClientId, PublicPlayerInfo>,
    channels: HashMap<ClientId, S>,
    hotseat: Option<ClientId>,
}

impl<S> View for SharedState<S> {
    type V = RegistryView<S>;

    closed spec fn view(&self) -> RegistryView<S> {
        RegistryView { players: self.players@, channels: self.channels@, hotseat: self.hotseat }
    }
}

impl<S> SharedState<S> {
    /// The well-formedness of the registry: see [`RegistryView::wf`].
    pub open spec fn wf(&self) -> bool {
        self@.wf()
    }

    /// An empty registry.
    pub fn new() -> (r: Self)
        ensures
            r@ == RegistryView::<S>::empty(),
            r.wf(),
    {
        let r = SharedState { players: HashMap::new(), channels: HashMap::new(), hotseat: None };
        assert(r@.players == Map::<ClientId, PublicPlayerInfo>::empty());
        assert(r@.channels == Map::<ClientId, S>::empty());
        r
    }

    /// Registers a client after its handshake: its player record and its event channel.
    pub fn register_player(&mut self, id: ClientId, info: PublicPlayerInfo, sender: S)
        requires
            old(self).wf(),
        ensures
            final(self)@ == old(self)@.register(id, info, sender),
            final(self).wf(),
    {
        self.players.insert(id, info);
        self.channels.insert(id, sender);
    }

    /// Tears down a client: removes its player record, its event channel and, if it waits
    /// there, its seat on the hotseat.
    pub fn remove_connection(&mut self, id: ClientId)
        requires
            old(self).wf(),
        ensures
            final(self)@ == old(self)@.remove(id),
            final(self).wf(),
    {
        self.players.remove(&id);
        self.channels.remove(&id);
        if self.hotseat == Some(id) {
            self.hotseat = None;
        }
    }

    /// Whether `id` has both a player record and an event channel.
    pub fn is_registered(&self, id: ClientId) -> (r: bool)
        ensures
            r == self@.is_registered(id),
    {
        self.players.contains_key(&id) && self.channels.contains_key(&id)
    }

    /// A matchmaking request from the registered client `id`. Returns the client it is paired
    /// with, or `None` when `id` now waits on the hotseat.
    pub fn find_game(&mut self, id: ClientId) -> (r: Option<ClientId>)
        requires
            old(self).wf(),
            old(self)@.is_registered(id),
        ensures
            (final(self)@, r) == old(self)@.find_game(id),
            final(self).wf(),
    {
        match self.hotseat {
            None => {
                self.hotseat = Some(id);
                None
            },
            Some(other) => {
                self.hotseat = None;
                Some(other)
            },
        }
    }

    /// The client waiting on the hotseat, if any.
    pub fn hotseat(&self) -> (r: Option<ClientId>)
        ensures
            r == self@.hotseat,
    {
        self.hotseat
    }

    /// A copy of the player record of `id`, if it has one.
    pub fn player_info(&self, id: ClientId) -> (r: Option<PublicPlayerInfo>)
        ensures
            r == (if self@.players.contains_key(id) { Some(self@.players[id]) } else { None }),
    {
        match self.players.get(&id) {
            Some(info) => Some(PublicPlayerInfo { name: info.name.clone() }),
            None => None,
        }
    }

    /// The sending half of the event channel of `id`, if it has one.
    pub fn channel(&self, id: ClientId) -> (r: Option<&S>)
        ensures
            r == (if self@.channels.contains_key(id) { Some(&self@.channels[id]) } else { None }),
    {
        self.channels.get(&id)
    }
}

} // verus!
