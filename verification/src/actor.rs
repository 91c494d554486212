//! The session actor's owned state: the client registry and the lobby
//! collection, together with the per-command mutation and broadcast logic.
//! Exactly one task owns an `App` value and applies one command at a time,
//! which is the entire concurrency-safety mechanism — there is one writer
//! and no lock.

use vstd::prelude::*;

use crate::channel::channel_clone;
use crate::delivery::{dispatch_deliveries, enqueue_all};
use crate::lobby::{
    admit_effects, admit_state, chat_effects, full_effects, leave_effects, leave_state,
    roster_matches, Lobby, Player,
};
use crate::message::{lobby_full_reply, AppMessage, BackendMessage, Delivery, LobbyInfo, Recipient};
use vstd::string::StringExecFns;

verus! {

/// A connected user, lobby member or not: identity plus the channel the
/// discovery and connection-count broadcasts are delivered on.
pub struct Client {
    pub id: u64,
    pub tx: tokio::sync::mpsc::UnboundedSender<BackendMessage>,
}

/// The session actor's state. `tx` loops back into the actor's own command
/// queue: derived broadcasts are self-enqueued there, never run inline.
pub struct App {
    pub clients: Vec<Client>,
    pub lobbies: Vec<Lobby>,
    pub next_lobby_id: u64,
    pub lobby_capacity: usize,
    pub tx: tokio::sync::mpsc::UnboundedSender<AppMessage>,
}

/// The total number of players over all lobbies.
pub open spec fn spec_player_count(lobbies: Seq<Lobby>) -> int
    decreases lobbies.len(),
{
    if lobbies.len() == 0 {
        0
    } else {
        spec_player_count(lobbies.drop_last()) + lobbies.last().players@.len()
    }
}

pub proof fn lemma_player_count_nonneg(lobbies: Seq<Lobby>)
    ensures
        spec_player_count(lobbies) >= 0,
    decreases lobbies.len(),
{
    if lobbies.len() > 0 {
        lemma_player_count_nonneg(lobbies.drop_last());
    }
}

/// `infos` is the discovery snapshot of `lobbies`: identity, display name
/// and player count of each, in order.
pub open spec fn infos_match(infos: Seq<LobbyInfo>, lobbies: Seq<Lobby>) -> bool {
    &&& infos.len() == lobbies.len()
    &&& forall|k: int| 0 <= k < infos.len() ==>
        (#[trigger] infos[k]).id == lobbies[k].id
        && infos[k].name == lobbies[k].name
        && infos[k].players == lobbies[k].players@.len()
}

/// `m` is the connection-count notification that matches `app`'s state:
/// the registry size, and the player total saturated at the machine limit.
pub open spec fn counts_message(m: BackendMessage, app: App) -> bool {
    m matches BackendMessage::ConnectionCounts { clients, players }
        && clients == app.clients@.len()
        && (spec_player_count(app.lobbies@) <= usize::MAX ==> players == spec_player_count(
            app.lobbies@,
        ))
        && (spec_player_count(app.lobbies@) > usize::MAX ==> players == usize::MAX)
}

impl App {
    /// Some registered client has id `id`.
    pub open spec fn has_client(self, id: u64) -> bool {
        exists|i: int| 0 <= i < self.clients@.len() && self.clients@[i].id == id
    }

    /// Some lobby has id `id`.
    pub open spec fn has_lobby(self, id: u64) -> bool {
        exists|i: int| 0 <= i < self.lobbies@.len() && self.lobbies@[i].id == id
    }

    /// Player `pid` is a member of some lobby.
    pub open spec fn player_in_some_lobby(self, pid: u64) -> bool {
        exists|i: int| 0 <= i < self.lobbies@.len() && self.lobbies@[i].has_player(pid)
    }

    /// The state invariant the actor maintains across every command:
    /// client ids are unique; every lobby is well-formed (so no lobby ever
    /// exceeds its capacity); lobby ids are unique and below the allocation
    /// counter; and every player id is a member of at most one lobby.
    pub open spec fn wf(self) -> bool {
        &&& self.lobby_capacity >= 1
        &&& forall|i: int, j: int|
            0 <= i < j < self.clients@.len() ==> self.clients@[i].id != self.clients@[j].id
        &&& forall|i: int| 0 <= i < self.lobbies@.len() ==> (#[trigger] self.lobbies@[i]).wf()
        &&& forall|i: int|
            0 <= i < self.lobbies@.len() ==> (#[trigger] self.lobbies@[i]).id
                < self.next_lobby_id
        &&& forall|i: int, j: int|
            0 <= i < j < self.lobbies@.len() ==> self.lobbies@[i].id != self.lobbies@[j].id
        &&& forall|i: int, j: int, pid: u64|
            #![trigger self.lobbies@[i].has_player(pid), self.lobbies@[j].has_player(pid)]
            0 <= i < self.lobbies@.len() && 0 <= j < self.lobbies@.len() && i != j ==> !(
            self.lobbies@[i].has_player(pid) && self.lobbies@[j].has_player(pid))
    }

    /// A fresh actor state: no clients, no lobbies. New lobbies will be
    /// created with `lobby_capacity` seats.
    pub fn new(
        tx: tokio::sync::mpsc::UnboundedSender<AppMessage>,
        lobby_capacity: usize,
    ) -> (app: App)
        requires
            lobby_capacity >= 1,
        ensures
            app.wf(),
            app.clients@.len() == 0,
            app.lobbies@.len() == 0,
            app.next_lobby_id == 0,
            app.lobby_capacity == lobby_capacity,
            app.tx == tx,
    {
        App { clients: Vec::new(), lobbies: Vec::new(), next_lobby_id: 0, lobby_capacity, tx }
    }

    /// Linear scan for the lobby with id `lobby_id`.
    fn index_of_lobby(&self, lobby_id: u64) -> (r: Option<usize>)
        ensures
            match r {
                Some(i) => i < self.lobbies@.len() && self.lobbies@[i as int].id == lobby_id,
                None => !self.has_lobby(lobby_id),
            },
    {
        let mut k: usize = 0;
        while k < self.lobbies.len()
            invariant
                k <= self.lobbies@.len(),
                forall|j: int| 0 <= j < k ==> (#[trigger] self.lobbies@[j]).id != lobby_id,
            decreases self.lobbies@.len() - k,
        {
            if self.lobbies[k].id == lobby_id {
                return Some(k);
            }
            k += 1;
        }
        None
    }

    /// Linear scan for the client with id `client_id`.
    fn index_of_client(&self, client_id: u64) -> (r: Option<usize>)
        ensures
            match r {
                Some(i) => i < self.clients@.len() && self.clients@[i as int].id == client_id,
                None => !self.has_client(client_id),
            },
    {
        let mut k: usize = 0;
        while k < self.clients.len()
            invariant
                k <= self.clients@.len(),
                forall|j: int| 0 <= j < k ==> (#[trigger] self.clients@[j]).id != client_id,
            decreases self.clients@.len() - k,
        {
            if self.clients[k].id == client_id {
                return Some(k);
            }
            k += 1;
        }
        None
    }

    /// Linear scan over all lobbies for the one holding player `pid` — the
    /// lookup-by-membership that `SendMessage` and `RemovePlayer` rely on.
    fn index_of_lobby_with_player(&self, pid: u64) -> (r: Option<usize>)
        ensures
            match r {
                Some(i) => i < self.lobbies@.len() && self.lobbies@[i as int].has_player(pid),
                None => !self.player_in_some_lobby(pid),
            },
    {
        let mut k: usize = 0;
        while k < self.lobbies.len()
            invariant
                k <= self.lobbies@.len(),
                forall|j: int| 0 <= j < k ==> !(#[trigger] self.lobbies@[j]).has_player(pid),
            decreases self.lobbies@.len() - k,
        {
            if self.lobbies[k].contains_player(pid) {
                return Some(k);
            }
            k += 1;
        }
        None
    }

    /// Linear scan for the first lobby with a free seat, used by quickplay.
    fn index_of_open_lobby(&self) -> (r: Option<usize>)
        ensures
            match r {
                Some(i) => i < self.lobbies@.len() && self.lobbies@[i as int].players@.len()
                    < self.lobbies@[i as int].capacity && forall|j: int|
                    0 <= j < i ==> (#[trigger] self.lobbies@[j]).players@.len()
                        >= self.lobbies@[j].capacity,
                None => forall|j: int|
                    0 <= j < self.lobbies@.len() ==> (#[trigger] self.lobbies@[j]).players@.len()
                        >= self.lobbies@[j].capacity,
            },
    {
        let mut k: usize = 0;
        while k < self.lobbies.len()
            invariant
                k <= self.lobbies@.len(),
                forall|j: int| 0 <= j < k ==> (#[trigger] self.lobbies@[j]).players@.len()
                    >= self.lobbies@[j].capacity,
            decreases self.lobbies@.len() - k,
        {
            if self.lobbies[k].players.len() < self.lobbies[k].capacity {
                return Some(k);
            }
            k += 1;
        }
        None
    }

    /// The discovery snapshot: name and player count of every lobby.
    pub fn get_current_lobbies(&self) -> (infos: Vec<LobbyInfo>)
        ensures
            infos_match(infos@, self.lobbies@),
    {
        let mut infos: Vec<LobbyInfo> = Vec::new();
        let mut k: usize = 0;
        while k < self.lobbies.len()
            invariant
                k <= self.lobbies@.len(),
                infos@.len() == k,
                forall|j: int| 0 <= j < k ==>
                    (#[trigger] infos@[j]).id == self.lobbies@[j].id
                    && infos@[j].name == self.lobbies@[j].name
                    && infos@[j].players == self.lobbies@[j].players@.len(),
            decreases self.lobbies@.len() - k,
        {
            infos.push(LobbyInfo {
                id: self.lobbies[k].id,
                name: self.lobbies[k].name.clone(),
                players: self.lobbies[k].players.len(),
            });
            k += 1;
        }
        infos
    }

    /// The total player count over all lobbies, saturated at the machine
    /// limit (which membership disjointness keeps out of reach in practice).
    pub fn total_player_count(&self) -> (n: usize)
        ensures
            spec_player_count(self.lobbies@) <= usize::MAX ==> n == spec_player_count(
                self.lobbies@,
            ),
            spec_player_count(self.lobbies@) > usize::MAX ==> n == usize::MAX,
    {
        let mut n: usize = 0;
        let mut k: usize = 0;
        while k < self.lobbies.len()
            invariant
                k <= self.lobbies@.len(),
                spec_player_count(self.lobbies@.subrange(0, k as int)) <= usize::MAX ==> n
                    == spec_player_count(self.lobbies@.subrange(0, k as int)),
                spec_player_count(self.lobbies@.subrange(0, k as int)) > usize::MAX ==> n
                    == usize::MAX,
            decreases self.lobbies@.len() - k,
        {
            proof {
                let pre = self.lobbies@.subrange(0, k as int);
                let cur = self.lobbies@.subrange(0, k as int + 1);
                assert(cur.drop_last() =~= pre);
                assert(cur.last() == self.lobbies@[k as int]);
                lemma_player_count_nonneg(pre);
            }
            n = n.saturating_add(self.lobbies[k].players.len());
            k += 1;
        }
        proof {
            assert(self.lobbies@.subrange(0, self.lobbies@.len() as int) =~= self.lobbies@);
        }
        n
    }

    /// Queues the connection-count notification for every connected client.
    pub fn send_connection_counts(&self) -> (dels: Vec<Delivery>)
        ensures
            dels@.len() == self.clients@.len(),
            forall|k: int|
                #![trigger dels@[k]]
                0 <= k < dels@.len() ==>
                (dels@[k].to matches Recipient::Client { id, .. }
                    && id == self.clients@[k].id)
                && counts_message(dels@[k].message, *self),
    {
        let clients_n = self.clients.len();
        let players_n = self.total_player_count();
        let mut dels: Vec<Delivery> = Vec::new();
        let mut k: usize = 0;
        while k < self.clients.len()
            invariant
                k <= self.clients@.len(),
                dels@.len() == k,
                clients_n == self.clients@.len(),
                spec_player_count(self.lobbies@) <= usize::MAX ==> players_n
                    == spec_player_count(self.lobbies@),
                spec_player_count(self.lobbies@) > usize::MAX ==> players_n == usize::MAX,
                forall|j: int|
                    #![trigger dels@[j]]
                    0 <= j < k ==>
                    (dels@[j].to matches Recipient::Client { id, .. }
                        && id == self.clients@[j].id)
                    && counts_message(dels@[j].message, *self),
            decreases self.clients@.len() - k,
        {
            dels.push(Delivery {
                to: Recipient::Client {
                    id: self.clients[k].id,
                    tx: channel_clone(&self.clients[k].tx),
                },
                message: BackendMessage::ConnectionCounts {
                    clients: clients_n,
                    players: players_n,
                },
            });
            k += 1;
        }
        dels
    }

    /// Queues the discovery snapshot for the given client's own channel; an
    /// unknown client id is dropped without effect.
    pub fn current_lobbies(&self, client_id: u64) -> (dels: Vec<Delivery>)
        ensures
            !self.has_client(client_id) ==> dels@.len() == 0,
            self.has_client(client_id) ==> dels@.len() == 1
                && (dels@[0].to matches Recipient::Client { id, .. } && id == client_id)
                && (dels@[0].message matches BackendMessage::CurrentLobbies { lobbies: infos }
                    && infos_match(infos@, self.lobbies@)),
    {
        match self.index_of_client(client_id) {
            Some(i) => {
                let infos = self.get_current_lobbies();
                let mut dels: Vec<Delivery> = Vec::new();
                dels.push(Delivery {
                    to: Recipient::Client {
                        id: self.clients[i].id,
                        tx: channel_clone(&self.clients[i].tx),
                    },
                    message: BackendMessage::CurrentLobbies { lobbies: infos },
                });
                dels
            },
            None => Vec::new(),
        }
    }

    /// Queues one lobby's name and player count for every connected client —
    /// the discovery update after a membership change. An unknown lobby id is
    /// dropped without effect.
    pub fn send_lobby_information(&self, lobby_id: u64) -> (dels: Vec<Delivery>)
        requires
            self.wf(),
        ensures
            !self.has_lobby(lobby_id) ==> dels@.len() == 0,
            forall|i: int|
                0 <= i < self.lobbies@.len() && (#[trigger] self.lobbies@[i]).id == lobby_id
                    ==> dels@.len() == self.clients@.len() && forall|k: int|
                    #![trigger dels@[k]]
                    0 <= k < dels@.len() ==> (dels@[k].to matches Recipient::Client {
                        id,
                        ..
                    } && id == self.clients@[k].id) && (
                    dels@[k].message matches BackendMessage::LobbyInformation {
                        id,
                        name,
                        players,
                    } && id == lobby_id && name == self.lobbies@[i].name && players
                        == self.lobbies@[i].players@.len()),
    {
        let li = match self.index_of_lobby(lobby_id) {
            Some(i) => i,
            None => {
                return Vec::new();
            },
        };
        let count = self.lobbies[li].players.len();
        let mut dels: Vec<Delivery> = Vec::new();
        let mut k: usize = 0;
        while k < self.clients.len()
            invariant
                k <= self.clients@.len(),
                dels@.len() == k,
                li < self.lobbies@.len(),
                self.lobbies@[li as int].id == lobby_id,
                count == self.lobbies@[li as int].players@.len(),
                forall|j: int|
                    #![trigger dels@[j]]
                    0 <= j < k ==>
                    (dels@[j].to matches Recipient::Client { id, .. }
                        && id == self.clients@[j].id)
                    && (dels@[j].message matches BackendMessage::LobbyInformation {
                        id,
                        name,
                        players,
                    } && id == lobby_id && name == self.lobbies@[li as int].name
                        && players == count),
            decreases self.clients@.len() - k,
        {
            dels.push(Delivery {
                to: Recipient::Client {
                    id: self.clients[k].id,
                    tx: channel_clone(&self.clients[k].tx),
                },
                message: BackendMessage::LobbyInformation {
                    id: self.lobbies[li].id,
                    name: self.lobbies[li].name.clone(),
                    players: count,
                },
            });
            k += 1;
        }
        proof {
            assert forall|a: int|
                0 <= a < self.lobbies@.len() && (#[trigger] self.lobbies@[a]).id == lobby_id
                implies a == li by {
                if a < li {
                    assert(self.lobbies@[a].id != self.lobbies@[li as int].id);
                } else if a > li {
                    assert(self.lobbies@[li as int].id != self.lobbies@[a].id);
                }
            }
        }
        dels
    }

    /// Queues the named lobby's roster for `player`'s own channel; an unknown
    /// lobby id is dropped without effect.
    pub fn current_players(&self, lobby_id: u64, player: Player) -> (dels: Vec<Delivery>)
        requires
            self.wf(),
        ensures
            !self.has_lobby(lobby_id) ==> dels@.len() == 0,
            forall|i: int|
                0 <= i < self.lobbies@.len() && (#[trigger] self.lobbies@[i]).id == lobby_id
                    ==> dels@.len() == 1 && (dels@[0].to matches Recipient::Member { player: p }
                    && p == player) && (
                    dels@[0].message matches BackendMessage::CurrentPlayers { players: names }
                        && roster_matches(names@, self.lobbies@[i].players@)),
    {
        match self.index_of_lobby(lobby_id) {
            Some(i) => {
                let dels = self.lobbies[i].send_current_players(player);
                proof {
                    assert forall|a: int|
                        0 <= a < self.lobbies@.len() && (#[trigger] self.lobbies@[a]).id
                            == lobby_id implies a == i by {
                        if a < i {
                            assert(self.lobbies@[a].id != self.lobbies@[i as int].id);
                        } else if a > i {
                            assert(self.lobbies@[i as int].id != self.lobbies@[a].id);
                        }
                    }
                }
                dels
            },
            None => Vec::new(),
        }
    }

    /// Deletes the lobby entry with id `lobby_id`; an unknown id is dropped
    /// without effect. Triggered by a lobby that has emptied.
    pub fn remove_lobby(&mut self, lobby_id: u64)
        requires
            old(self).wf(),
        ensures
            final(self).wf(),
            final(self).clients@ == old(self).clients@,
            final(self).next_lobby_id == old(self).next_lobby_id,
            final(self).lobby_capacity == old(self).lobby_capacity,
            final(self).tx == old(self).tx,
            !old(self).has_lobby(lobby_id) ==> final(self).lobbies@ == old(self).lobbies@,
            old(self).has_lobby(lobby_id) ==> exists|i: int|
                0 <= i < old(self).lobbies@.len() && old(self).lobbies@[i].id == lobby_id
                    && final(self).lobbies@ == old(self).lobbies@.remove(i),
            !final(self).has_lobby(lobby_id),
    {
        let i = match self.index_of_lobby(lobby_id) {
            Some(i) => i,
            None => {
                return ;
            },
        };
        let ghost pre = self.lobbies@;
        self.lobbies.remove(i);
        proof {
            assert forall|a: int| 0 <= a < self.lobbies@.len() implies #[trigger] self.lobbies@[a]
                == if a < i { pre[a] } else { pre[a + 1] } by {}
            assert forall|a: int| 0 <= a < self.lobbies@.len() implies (
            #[trigger] self.lobbies@[a]).id != lobby_id by {
                if a < i {
                    assert(pre[a].id != pre[i as int].id);
                } else {
                    assert(pre[a + 1].id != pre[i as int].id);
                }
            }
        }
    }

    /// Inserts a client into the registry; a re-used id replaces the old
    /// entry so that ids stay unique. Always asks the actor to broadcast the
    /// refreshed connection counts as a later, distinct command.
    pub fn add_client(
        &mut self,
        client_id: u64,
        client_tx: tokio::sync::mpsc::UnboundedSender<BackendMessage>,
    ) -> (follows: Vec<AppMessage>)
        requires
            old(self).wf(),
        ensures
            final(self).wf(),
            final(self).lobbies@ == old(self).lobbies@,
            final(self).next_lobby_id == old(self).next_lobby_id,
            final(self).lobby_capacity == old(self).lobby_capacity,
            final(self).tx == old(self).tx,
            final(self).has_client(client_id),
            !old(self).has_client(client_id) ==> final(self).clients@ == old(self).clients@.push(
                (Client { id: client_id, tx: client_tx }),
            ),
            old(self).has_client(client_id) ==> exists|i: int|
                0 <= i < old(self).clients@.len() && old(self).clients@[i].id == client_id
                    && final(self).clients@ == old(self).clients@.remove(i).push(
                    (Client { id: client_id, tx: client_tx }),
                ),
            follows@.len() == 1 && follows@[0] == AppMessage::SendConnectionCounts,
    {
        match self.index_of_client(client_id) {
            Some(i) => {
                let ghost pre = self.clients@;
                self.clients.remove(i);
                proof {
                    assert forall|a: int| 0 <= a < self.clients@.len() implies (
                    #[trigger] self.clients@[a]).id != client_id by {
                        if a < i {
                            assert(self.clients@[a] == pre[a]);
                        } else {
                            assert(self.clients@[a] == pre[a + 1]);
                        }
                    }
                }
            },
            None => {},
        }
        self.clients.push(Client { id: client_id, tx: client_tx });
        proof {
            assert(self.clients@[self.clients@.len() - 1].id == client_id);
        }
        let mut follows: Vec<AppMessage> = Vec::new();
        follows.push(AppMessage::SendConnectionCounts);
        follows
    }

    /// Deletes a client from the registry; an unknown id is dropped without
    /// effect. Always asks the actor to broadcast the refreshed connection
    /// counts as a later, distinct command.
    pub fn remove_client(&mut self, client_id: u64) -> (follows: Vec<AppMessage>)
        requires
            old(self).wf(),
        ensures
            final(self).wf(),
            final(self).lobbies@ == old(self).lobbies@,
            final(self).next_lobby_id == old(self).next_lobby_id,
            final(self).lobby_capacity == old(self).lobby_capacity,
            final(self).tx == old(self).tx,
            !old(self).has_client(client_id) ==> final(self).clients@ == old(self).clients@,
            old(self).has_client(client_id) ==> exists|i: int|
                0 <= i < old(self).clients@.len() && old(self).clients@[i].id == client_id
                    && final(self).clients@ == old(self).clients@.remove(i),
            !final(self).has_client(client_id),
            follows@.len() == 1 && follows@[0] == AppMessage::SendConnectionCounts,
    {
        match self.index_of_client(client_id) {
            Some(i) => {
                let ghost pre = self.clients@;
                self.clients.remove(i);
                proof {
                    assert forall|a: int| 0 <= a < self.clients@.len() implies (
                    #[trigger] self.clients@[a]).id != client_id by {
                        if a < i {
                            assert(self.clients@[a] == pre[a]);
                        } else {
                            assert(self.clients@[a] == pre[a + 1]);
                        }
                    }
                }
            },
            None => {},
        }
        let mut follows: Vec<AppMessage> = Vec::new();
        follows.push(AppMessage::SendConnectionCounts);
        follows
    }

    /// Some lobby has a free seat.
    pub open spec fn has_open_lobby(self) -> bool {
        exists|i: int| 0 <= i < self.lobbies@.len() && lobby_is_open(self.lobbies@[i])
    }

    /// Allocates a fresh lobby, named after its creator, and admits the
    /// player into it. A player who is already a member of some lobby is
    /// dropped (admitting them twice would break the one-lobby-per-player
    /// invariant), as is a request after the id space is exhausted.
    pub fn add_player_to_new_lobby(&mut self, player: Player) -> (eff: (
        Vec<Delivery>,
        Vec<AppMessage>,
    ))
        requires
            old(self).wf(),
        ensures
            final(self).wf(),
            final(self).clients@ == old(self).clients@,
            final(self).lobby_capacity == old(self).lobby_capacity,
            final(self).tx == old(self).tx,
            old(self).player_in_some_lobby(player.id) ==> *final(self) == *old(self)
                && eff.0@.len() == 0 && eff.1@.len() == 0,
            !old(self).player_in_some_lobby(player.id) && old(self).next_lobby_id == u64::MAX
                ==> *final(self) == *old(self) && eff.0@.len() == 0 && eff.1@.len() == 0,
            !old(self).player_in_some_lobby(player.id) && old(self).next_lobby_id < u64::MAX
                ==> new_lobby_effects(*old(self), *final(self), player, eff.0@, eff.1@)
                && final(self).player_in_some_lobby(player.id),
    {
        if self.index_of_lobby_with_player(player.id).is_some() {
            return (Vec::new(), Vec::new());
        }
        if self.next_lobby_id == u64::MAX {
            return (Vec::new(), Vec::new());
        }
        let id = self.next_lobby_id;
        self.next_lobby_id = id + 1;
        let name = player.name.clone().concat("'s lobby");
        let mut l = Lobby { id, name, capacity: self.lobby_capacity, players: Vec::new() };
        let ghost player_snap = player;
        let eff = l.add_player(player);
        let ghost lv = l;
        let ghost pre_lobbies = self.lobbies@;
        self.lobbies.push(l);
        proof {
            assert(lv.players@ =~= seq![player_snap]);
            assert(self.lobbies@.last() == lv);
            assert forall|pid: u64| #[trigger] lv.has_player(pid) implies pid
                == player_snap.id by {
                let w = choose|w: int| 0 <= w < lv.players@.len() && lv.players@[w].id == pid;
                assert(lv.players@[w] == player_snap);
            }
            lemma_wf_after_lobby_push(*old(self), *self, player_snap.id);
            assert(lv.players@[0].id == player_snap.id);
            assert(lv.has_player(player_snap.id));
            assert(self.lobbies@[self.lobbies@.len() - 1].has_player(player_snap.id));
        }
        eff
    }

    /// Quickplay matchmaking: admits the player into the first lobby with a
    /// free seat, or allocates a new lobby when every existing one is full.
    /// A player already in some lobby is dropped.
    pub fn add_player_via_quickplay(&mut self, player: Player) -> (eff: (
        Vec<Delivery>,
        Vec<AppMessage>,
    ))
        requires
            old(self).wf(),
        ensures
            final(self).wf(),
            final(self).clients@ == old(self).clients@,
            final(self).lobby_capacity == old(self).lobby_capacity,
            final(self).tx == old(self).tx,
            old(self).player_in_some_lobby(player.id) ==> *final(self) == *old(self)
                && eff.0@.len() == 0 && eff.1@.len() == 0,
            !old(self).player_in_some_lobby(player.id) && old(self).has_open_lobby() ==> final(self).next_lobby_id == old(self).next_lobby_id && final(self).lobbies@.len() == old(self).lobbies@.len() && exists|i: int|
                #![trigger old(self).lobbies@[i]]
                first_open_lobby_at(old(self).lobbies@, i) && (forall|j: int|
                    0 <= j < final(self).lobbies@.len() && j != i ==> final(self).lobbies@[j]
                        == old(self).lobbies@[j]) && admit_effects(
                    old(self).lobbies@[i],
                    final(self).lobbies@[i],
                    player,
                    eff.0@,
                    eff.1@,
                ),
            !old(self).player_in_some_lobby(player.id) && old(self).has_open_lobby() ==> exists|i: int|
                #![trigger old(self).lobbies@[i]]
                first_open_lobby_at(old(self).lobbies@, i) && (forall|j: int|
                    0 <= j < final(self).lobbies@.len() && j != i ==> final(self).lobbies@[j]
                        == old(self).lobbies@[j]) && admit_state(
                    old(self).lobbies@[i],
                    final(self).lobbies@[i],
                    player,
                ),
            !old(self).player_in_some_lobby(player.id) && !old(self).has_open_lobby() && old(self).next_lobby_id == u64::MAX ==> *final(self) == *old(self) && eff.0@.len() == 0
                && eff.1@.len() == 0,
            !old(self).player_in_some_lobby(player.id) && !old(self).has_open_lobby() && old(self).next_lobby_id < u64::MAX ==> new_lobby_effects(
                *old(self),
                *final(self),
                player,
                eff.0@,
                eff.1@,
            ),
            !old(self).player_in_some_lobby(player.id) && (old(self).has_open_lobby()
                || old(self).next_lobby_id < u64::MAX) ==> final(self).player_in_some_lobby(
                player.id,
            ),
    {
        if self.index_of_lobby_with_player(player.id).is_some() {
            return (Vec::new(), Vec::new());
        }
        match self.index_of_open_lobby() {
            Some(i) => {
                let ghost psnap = player;
                let ghost pre_lobbies = self.lobbies@;
                let mut l = self.lobbies.remove(i);
                let eff = l.add_player(player);
                let ghost lv = l;
                self.lobbies.insert(i, l);
                proof {
                    assert(self.lobbies@ =~= pre_lobbies.update(i as int, lv));
                    lemma_admit_membership(pre_lobbies[i as int], lv, psnap);
                    lemma_wf_after_lobby_update(*old(self), *self, i as int, Some(psnap.id));
                    assert(first_open_lobby_at(pre_lobbies, i as int));
                    assert(lv.players@[lv.players@.len() - 1].id == psnap.id);
                    assert(lv.has_player(psnap.id));
                    assert(self.lobbies@[i as int].has_player(psnap.id));
                }
                eff
            },
            None => self.add_player_to_new_lobby(player),
        }
    }

    /// Admits the player into the named lobby if capacity allows; the
    /// capacity check precedes any mutation, and a full lobby answers with a
    /// `LobbyFull` reply instead. An unknown lobby id, or a player already
    /// in some lobby, is dropped without effect.
    pub fn add_player_to_lobby(&mut self, lobby_id: u64, player: Player) -> (eff: (
        Vec<Delivery>,
        Vec<AppMessage>,
    ))
        requires
            old(self).wf(),
        ensures
            final(self).wf(),
            final(self).clients@ == old(self).clients@,
            final(self).next_lobby_id == old(self).next_lobby_id,
            final(self).lobby_capacity == old(self).lobby_capacity,
            final(self).tx == old(self).tx,
            final(self).lobbies@.len() == old(self).lobbies@.len(),
            old(self).player_in_some_lobby(player.id) ==> *final(self) == *old(self)
                && eff.0@.len() == 0 && eff.1@.len() == 0,
            !old(self).player_in_some_lobby(player.id) && !old(self).has_lobby(lobby_id)
                ==> *final(self) == *old(self) && eff.0@.len() == 0 && eff.1@.len() == 0,
            !old(self).player_in_some_lobby(player.id) ==> forall|i: int|
                0 <= i < old(self).lobbies@.len() && (#[trigger] old(self).lobbies@[i]).id
                    == lobby_id ==> (forall|j: int|
                    0 <= j < final(self).lobbies@.len() && j != i ==> final(self).lobbies@[j]
                        == old(self).lobbies@[j]) && (old(self).lobbies@[i].players@.len() < old(self).lobbies@[i].capacity ==> admit_effects(
                    old(self).lobbies@[i],
                    final(self).lobbies@[i],
                    player,
                    eff.0@,
                    eff.1@,
                )) && (old(self).lobbies@[i].players@.len() >= old(self).lobbies@[i].capacity
                    ==> full_effects(
                    old(self).lobbies@[i],
                    final(self).lobbies@[i],
                    player,
                    eff.0@,
                    eff.1@,
                )),
    {
        if self.index_of_lobby_with_player(player.id).is_some() {
            return (Vec::new(), Vec::new());
        }
        let li = match self.index_of_lobby(lobby_id) {
            Some(i) => i,
            None => {
                return (Vec::new(), Vec::new());
            },
        };
        proof {
            assert forall|a: int|
                0 <= a < self.lobbies@.len() && (#[trigger] self.lobbies@[a]).id == lobby_id
                implies a == li by {
                if a < li {
                    assert(self.lobbies@[a].id != self.lobbies@[li as int].id);
                } else if a > li {
                    assert(self.lobbies@[li as int].id != self.lobbies@[a].id);
                }
            }
        }
        if self.lobbies[li].players.len() >= self.lobbies[li].capacity {
            let mut follows: Vec<AppMessage> = Vec::new();
            follows.push(AppMessage::LobbyFull { player_tx: player.tx });
            return (Vec::new(), follows);
        }
        let ghost pre_lobbies = self.lobbies@;
        let mut l = self.lobbies.remove(li);
        let eff = l.add_player(player);
        let ghost lv = l;
        self.lobbies.insert(li, l);
        proof {
            assert(self.lobbies@ =~= pre_lobbies.update(li as int, lv));
            lemma_admit_membership(pre_lobbies[li as int], lv, player);
            lemma_wf_after_lobby_update(*old(self), *self, li as int, Some(player.id));
        }
        eff
    }

    /// Removes the player from the lobby that holds them — located by a
    /// linear scan over all memberships — and afterwards the player is a
    /// member of no lobby at all. A player in no lobby is dropped without
    /// effect.
    pub fn remove_player(&mut self, player: &Player) -> (eff: (Vec<Delivery>, Vec<AppMessage>))
        requires
            old(self).wf(),
        ensures
            final(self).wf(),
            final(self).clients@ == old(self).clients@,
            final(self).next_lobby_id == old(self).next_lobby_id,
            final(self).lobby_capacity == old(self).lobby_capacity,
            final(self).tx == old(self).tx,
            final(self).lobbies@.len() == old(self).lobbies@.len(),
            !old(self).player_in_some_lobby(player.id) ==> *final(self) == *old(self)
                && eff.0@.len() == 0 && eff.1@.len() == 0,
            forall|i: int|
                0 <= i < old(self).lobbies@.len() && (#[trigger] old(self).lobbies@[i]).has_player(
                    player.id,
                ) ==> (forall|j: int|
                    0 <= j < final(self).lobbies@.len() && j != i ==> final(self).lobbies@[j]
                        == old(self).lobbies@[j]) && leave_effects(
                    old(self).lobbies@[i],
                    final(self).lobbies@[i],
                    *player,
                    eff.0@,
                    eff.1@,
                ),
            !final(self).player_in_some_lobby(player.id),
    {
        let li = match self.index_of_lobby_with_player(player.id) {
            Some(i) => i,
            None => {
                return (Vec::new(), Vec::new());
            },
        };
        proof {
            assert forall|a: int|
                0 <= a < self.lobbies@.len() && (#[trigger] self.lobbies@[a]).has_player(player.id)
                implies a == li by {}
        }
        let ghost pre_lobbies = self.lobbies@;
        let mut l = self.lobbies.remove(li);
        let eff = l.remove_player(player);
        let ghost lv = l;
        self.lobbies.insert(li, l);
        proof {
            assert(self.lobbies@ =~= pre_lobbies.update(li as int, lv));
            lemma_leave_membership(pre_lobbies[li as int], lv, player.id);
            lemma_wf_after_lobby_update(*old(self), *self, li as int, None);
            assert forall|a: int| 0 <= a < self.lobbies@.len() implies !(
            #[trigger] self.lobbies@[a]).has_player(player.id) by {
                if a != li {
                    assert(self.lobbies@[a] == pre_lobbies[a]);
                }
            }
        }
        eff
    }

    /// Locates the lobby that holds `player` and queues the chat line for
    /// every one of its members — and for no channel outside it. A sender in
    /// no lobby is dropped without effect.
    pub fn send_chat_message(&self, player: &Player, text: &String) -> (dels: Vec<Delivery>)
        requires
            self.wf(),
        ensures
            !self.player_in_some_lobby(player.id) ==> dels@.len() == 0,
            forall|i: int|
                0 <= i < self.lobbies@.len() && (#[trigger] self.lobbies@[i]).has_player(player.id)
                    ==> chat_effects(self.lobbies@[i], *player, *text, dels@),
    {
        match self.index_of_lobby_with_player(player.id) {
            Some(i) => {
                let dels = self.lobbies[i].send_message(player, text);
                proof {
                    assert forall|a: int|
                        0 <= a < self.lobbies@.len() && (#[trigger] self.lobbies@[a]).has_player(
                            player.id,
                        ) implies a == i by {}
                }
                dels
            },
            None => Vec::new(),
        }
    }
}

/// The lobby has a free seat.
pub open spec fn lobby_is_open(l: Lobby) -> bool {
    l.players@.len() < l.capacity
}

/// `lobbies[i]` is the first lobby with a free seat.
pub open spec fn first_open_lobby_at(lobbies: Seq<Lobby>, i: int) -> bool {
    &&& 0 <= i < lobbies.len()
    &&& lobby_is_open(lobbies[i])
    &&& forall|j: int| 0 <= j < i ==> !lobby_is_open(#[trigger] lobbies[j])
}

/// The state change of a new-lobby allocation: one more lobby at the end,
/// carrying the freshly allocated id and the configured capacity, named
/// after its creator and holding exactly the creator; the existing lobbies
/// are untouched and the allocation counter advances by one.
pub open spec fn new_lobby_state(pre: App, post: App, player: Player) -> bool {
    &&& post.lobbies@.len() == pre.lobbies@.len() + 1
    &&& forall|j: int| 0 <= j < pre.lobbies@.len() ==> post.lobbies@[j] == pre.lobbies@[j]
    &&& post.lobbies@.last().id == pre.next_lobby_id
    &&& post.lobbies@.last().capacity == pre.lobby_capacity
    &&& post.lobbies@.last().players@ == seq![player]
    &&& post.lobbies@.last().name@ == player.name@ + "'s lobby"@
    &&& post.next_lobby_id == pre.next_lobby_id + 1
}

/// Everything a new-lobby allocation hands back: the state change above,
/// the creator's roster snapshot, and the discovery-update request for the
/// new lobby.
pub open spec fn new_lobby_effects(
    pre: App,
    post: App,
    player: Player,
    dels: Seq<Delivery>,
    follows: Seq<AppMessage>,
) -> bool {
    &&& new_lobby_state(pre, post, player)
    &&& dels.len() == 1
    &&& (dels[0].to matches Recipient::Member { player: p }
        && p.id == player.id && p.name == player.name)
    &&& (dels[0].message matches BackendMessage::CurrentPlayers { players: names }
        && roster_matches(names@, post.lobbies@.last().players@))
    &&& follows.len() == 1
    &&& (follows[0] matches AppMessage::SendLobbyInformation { lobby_id }
        && lobby_id == pre.next_lobby_id)
}

/// Appending a player to a lobby adds that player's id to its membership
/// and nothing else.
proof fn lemma_admit_membership(pre: Lobby, post: Lobby, player: Player)
    requires
        post.players@ == pre.players@.push(player),
    ensures
        forall|pid: u64| #[trigger] post.has_player(pid) ==> pre.has_player(pid) || pid
            == player.id,
{
    assert forall|pid: u64| #[trigger] post.has_player(pid) implies pre.has_player(pid) || pid
        == player.id by {
        let w = choose|w: int| 0 <= w < post.players@.len() && post.players@[w].id == pid;
        if w < pre.players@.len() {
            assert(pre.players@[w].id == pid);
        }
    }
}

/// Removing a player from a lobby only ever shrinks its membership.
proof fn lemma_leave_membership(pre: Lobby, post: Lobby, removed: u64)
    requires
        crate::lobby::leave_state(pre, post, removed),
    ensures
        forall|pid: u64| #[trigger] post.has_player(pid) ==> pre.has_player(pid),
{
    let i = choose|i: int|
        0 <= i < pre.players@.len() && pre.players@[i].id == removed && post.players@
            == pre.players@.remove(i);
    assert forall|pid: u64| #[trigger] post.has_player(pid) implies pre.has_player(pid) by {
        let w = choose|w: int| 0 <= w < post.players@.len() && post.players@[w].id == pid;
        if w < i {
            assert(pre.players@[w].id == pid);
        } else {
            assert(pre.players@[w + 1].id == pid);
        }
    }
}

/// Changing one lobby's membership preserves the actor invariant, provided
/// the changed lobby stays well-formed, keeps its id, and gains at most the
/// one player id `added` — which no lobby held before.
proof fn lemma_wf_after_lobby_update(pre: App, post: App, i: int, added: Option<u64>)
    requires
        pre.wf(),
        0 <= i < pre.lobbies@.len(),
        post.clients@ == pre.clients@,
        post.lobby_capacity == pre.lobby_capacity,
        post.next_lobby_id == pre.next_lobby_id,
        post.lobbies@.len() == pre.lobbies@.len(),
        forall|j: int|
            0 <= j < post.lobbies@.len() && j != i ==> post.lobbies@[j] == pre.lobbies@[j],
        post.lobbies@[i].wf(),
        post.lobbies@[i].id == pre.lobbies@[i].id,
        forall|pid: u64| #[trigger] post.lobbies@[i].has_player(pid) ==> pre.lobbies@[
            i
        ].has_player(pid) || added == Some(pid),
        added matches Some(p) ==> !pre.player_in_some_lobby(p),
    ensures
        post.wf(),
{
    assert forall|a: int| 0 <= a < post.lobbies@.len() implies (
    #[trigger] post.lobbies@[a]).wf() by {
        if a != i {
            assert(post.lobbies@[a] == pre.lobbies@[a]);
            assert(pre.lobbies@[a].wf());
        }
    }
    assert forall|a: int| 0 <= a < post.lobbies@.len() implies (#[trigger] post.lobbies@[a]).id
        < post.next_lobby_id by {
        if a != i {
            assert(post.lobbies@[a] == pre.lobbies@[a]);
        }
        assert(pre.lobbies@[a].id < pre.next_lobby_id);
    }
    assert forall|a: int, b: int| 0 <= a < b < post.lobbies@.len() implies post.lobbies@[a].id
        != post.lobbies@[b].id by {
        assert(post.lobbies@[a].id == pre.lobbies@[a].id);
        assert(post.lobbies@[b].id == pre.lobbies@[b].id);
    }
    assert forall|a: int, b: int, pid: u64|
        #![trigger post.lobbies@[a].has_player(pid), post.lobbies@[b].has_player(pid)]
        0 <= a < post.lobbies@.len() && 0 <= b < post.lobbies@.len() && a != b implies !(
    post.lobbies@[a].has_player(pid) && post.lobbies@[b].has_player(pid)) by {
        if post.lobbies@[a].has_player(pid) && post.lobbies@[b].has_player(pid) {
            if a == i {
                assert(post.lobbies@[b] == pre.lobbies@[b]);
                if pre.lobbies@[i].has_player(pid) {
                    assert(false);
                } else {
                    assert(added == Some(pid));
                    assert(pre.lobbies@[b].has_player(pid));
                    assert(pre.player_in_some_lobby(pid));
                    assert(false);
                }
            } else if b == i {
                assert(post.lobbies@[a] == pre.lobbies@[a]);
                if pre.lobbies@[i].has_player(pid) {
                    assert(false);
                } else {
                    assert(added == Some(pid));
                    assert(pre.lobbies@[a].has_player(pid));
                    assert(pre.player_in_some_lobby(pid));
                    assert(false);
                }
            } else {
                assert(post.lobbies@[a] == pre.lobbies@[a]);
                assert(post.lobbies@[b] == pre.lobbies@[b]);
                assert(false);
            }
        }
    }
}

/// Appending a fresh lobby — carrying the allocated id and only the one new
/// player — preserves the actor invariant.
proof fn lemma_wf_after_lobby_push(pre: App, post: App, added: u64)
    requires
        pre.wf(),
        post.clients@ == pre.clients@,
        post.lobby_capacity == pre.lobby_capacity,
        post.lobbies@.len() == pre.lobbies@.len() + 1,
        forall|j: int| 0 <= j < pre.lobbies@.len() ==> post.lobbies@[j] == pre.lobbies@[j],
        post.lobbies@.last().wf(),
        post.lobbies@.last().id == pre.next_lobby_id,
        post.next_lobby_id == pre.next_lobby_id + 1,
        forall|pid: u64| #[trigger] post.lobbies@.last().has_player(pid) ==> pid == added,
        !pre.player_in_some_lobby(added),
    ensures
        post.wf(),
{
    let n = pre.lobbies@.len() as int;
    assert forall|a: int| 0 <= a < post.lobbies@.len() implies (
    #[trigger] post.lobbies@[a]).wf() by {
        if a < n {
            assert(post.lobbies@[a] == pre.lobbies@[a]);
            assert(pre.lobbies@[a].wf());
        } else {
            assert(post.lobbies@[a] == post.lobbies@.last());
        }
    }
    assert forall|a: int| 0 <= a < post.lobbies@.len() implies (#[trigger] post.lobbies@[a]).id
        < post.next_lobby_id by {
        if a < n {
            assert(post.lobbies@[a] == pre.lobbies@[a]);
            assert(pre.lobbies@[a].id < pre.next_lobby_id);
        }
    }
    assert forall|a: int, b: int| 0 <= a < b < post.lobbies@.len() implies post.lobbies@[a].id
        != post.lobbies@[b].id by {
        if b < n {
            assert(post.lobbies@[a] == pre.lobbies@[a]);
            assert(post.lobbies@[b] == pre.lobbies@[b]);
        } else {
            assert(post.lobbies@[a] == pre.lobbies@[a]);
            assert(pre.lobbies@[a].id < pre.next_lobby_id);
        }
    }
    assert forall|a: int, b: int, pid: u64|
        #![trigger post.lobbies@[a].has_player(pid), post.lobbies@[b].has_player(pid)]
        0 <= a < post.lobbies@.len() && 0 <= b < post.lobbies@.len() && a != b implies !(
    post.lobbies@[a].has_player(pid) && post.lobbies@[b].has_player(pid)) by {
        if post.lobbies@[a].has_player(pid) && post.lobbies@[b].has_player(pid) {
            if a < n && b < n {
                assert(post.lobbies@[a] == pre.lobbies@[a]);
                assert(post.lobbies@[b] == pre.lobbies@[b]);
                assert(false);
            } else if a < n {
                assert(post.lobbies@[b] == post.lobbies@.last());
                assert(pid == added);
                assert(post.lobbies@[a] == pre.lobbies@[a]);
                assert(pre.player_in_some_lobby(pid));
                assert(false);
            } else {
                assert(post.lobbies@[a] == post.lobbies@.last());
                assert(pid == added);
                assert(post.lobbies@[b] == pre.lobbies@[b]);
                assert(pre.player_in_some_lobby(pid));
                assert(false);
            }
        }
    }
}

/// Applies one command to completion: mutates the actor state as the
/// command demands, carries out every resulting delivery, and self-enqueues
/// the follow-up commands — plus one removal command per recipient whose
/// channel turned out to be closed, so that membership converges with
/// reality instead of the failure aborting the processing loop.
pub fn handle_app_message(app: &mut App, msg: AppMessage)
    requires
        old(app).wf(),
    ensures
        final(app).wf(),
        final(app).lobby_capacity == old(app).lobby_capacity,
        final(app).tx == old(app).tx,
        (msg matches AppMessage::CurrentPlayers { .. } || msg matches AppMessage::SendMessage {
            ..
        } || msg matches AppMessage::LobbyFull { .. } || msg matches AppMessage::CurrentLobbies {
            ..
        } || msg matches AppMessage::SendLobbyInformation { .. }
            || msg matches AppMessage::SendConnectionCounts) ==> *final(app) == *old(app),
        msg matches AppMessage::AddClient { client_id, client_tx } ==> final(app).has_client(
            client_id,
        ) && final(app).lobbies@ == old(app).lobbies@ && (!old(app).has_client(client_id) ==> final(app).clients@ == old(app).clients@.push((Client { id: client_id, tx: client_tx }))),
        msg matches AppMessage::RemoveClient { client_id } ==> !final(app).has_client(client_id)
            && final(app).lobbies@ == old(app).lobbies@ && (old(app).has_client(client_id)
            ==> exists|i: int|
            0 <= i < old(app).clients@.len() && old(app).clients@[i].id == client_id && final(app).clients@ == old(app).clients@.remove(i)) && (!old(app).has_client(client_id)
            ==> final(app).clients@ == old(app).clients@),
        msg matches AppMessage::RemoveLobby { lobby_id } ==> !final(app).has_lobby(lobby_id)
            && final(app).clients@ == old(app).clients@ && (!old(app).has_lobby(lobby_id)
            ==> final(app).lobbies@ == old(app).lobbies@) && (old(app).has_lobby(lobby_id)
            ==> exists|i: int|
            0 <= i < old(app).lobbies@.len() && old(app).lobbies@[i].id == lobby_id && final(app).lobbies@ == old(app).lobbies@.remove(i)),
        msg matches AppMessage::RemovePlayer { player } ==> !final(app).player_in_some_lobby(
            player.id,
        ) && final(app).clients@ == old(app).clients@ && final(app).next_lobby_id == old(app).next_lobby_id && final(app).lobbies@.len() == old(app).lobbies@.len() && (!old(app).player_in_some_lobby(player.id) ==> *final(app) == *old(app)) && forall|i: int|
            0 <= i < old(app).lobbies@.len() && (#[trigger] old(app).lobbies@[i]).has_player(
                player.id,
            ) ==> (forall|j: int|
                0 <= j < final(app).lobbies@.len() && j != i ==> final(app).lobbies@[j] == old(app).lobbies@[j]) && leave_state(old(app).lobbies@[i], final(app).lobbies@[i], player.id)
                && !final(app).lobbies@[i].has_player(player.id),
        msg matches AppMessage::CreateLobbyAndAddPlayer { player } ==> final(app).clients@ == old(app).clients@ && (old(app).player_in_some_lobby(player.id) ==> *final(app) == *old(app))
            && (!old(app).player_in_some_lobby(player.id) && old(app).next_lobby_id == u64::MAX
            ==> *final(app) == *old(app)) && (!old(app).player_in_some_lobby(player.id) && old(app).next_lobby_id < u64::MAX ==> new_lobby_state(*old(app), *final(app), player) && final(app).player_in_some_lobby(player.id)),
        msg matches AppMessage::AddPlayerViaQuickplay { player } ==> final(app).clients@ == old(app).clients@ && (old(app).player_in_some_lobby(player.id) ==> *final(app) == *old(app))
            && (!old(app).player_in_some_lobby(player.id) && old(app).has_open_lobby() ==> final(app).next_lobby_id == old(app).next_lobby_id && final(app).lobbies@.len() == old(app).lobbies@.len() && exists|i: int|
            #![trigger old(app).lobbies@[i]]
            first_open_lobby_at(old(app).lobbies@, i) && (forall|j: int|
                0 <= j < final(app).lobbies@.len() && j != i ==> final(app).lobbies@[j] == old(app).lobbies@[j]) && admit_state(old(app).lobbies@[i], final(app).lobbies@[i], player))
            && (!old(app).player_in_some_lobby(player.id) && !old(app).has_open_lobby() && old(app).next_lobby_id == u64::MAX ==> *final(app) == *old(app)) && (!old(app).player_in_some_lobby(player.id) && !old(app).has_open_lobby() && old(app).next_lobby_id
            < u64::MAX ==> new_lobby_state(*old(app), *final(app), player)) && (!old(app).player_in_some_lobby(player.id) && (old(app).has_open_lobby() || old(app).next_lobby_id
            < u64::MAX) ==> final(app).player_in_some_lobby(player.id)),
        msg matches AppMessage::AddPlayerToLobby { lobby_id, player } ==> final(app).clients@
            == old(app).clients@ && final(app).next_lobby_id == old(app).next_lobby_id && final(app).lobbies@.len() == old(app).lobbies@.len() && (old(app).player_in_some_lobby(player.id)
            ==> *final(app) == *old(app)) && (!old(app).player_in_some_lobby(player.id) && !old(app).has_lobby(lobby_id) ==> *final(app) == *old(app)) && (!old(app).player_in_some_lobby(
            player.id,
        ) ==> forall|i: int|
            0 <= i < old(app).lobbies@.len() && (#[trigger] old(app).lobbies@[i]).id == lobby_id
                ==> (forall|j: int|
                0 <= j < final(app).lobbies@.len() && j != i ==> final(app).lobbies@[j] == old(app).lobbies@[j]) && (old(app).lobbies@[i].players@.len() < old(app).lobbies@[i].capacity ==> admit_state(
                old(app).lobbies@[i],
                final(app).lobbies@[i],
                player,
            )) && (old(app).lobbies@[i].players@.len() >= old(app).lobbies@[i].capacity ==> final(app).lobbies@[i] == old(app).lobbies@[i])),
{
    match msg {
        AppMessage::CurrentPlayers { lobby_id, player } => {
            let dels = app.current_players(lobby_id, player);
            let failed = dispatch_deliveries(dels);
            enqueue_all(&app.tx, failed);
        },
        AppMessage::CreateLobbyAndAddPlayer { player } => {
            let eff = app.add_player_to_new_lobby(player);
            let failed = dispatch_deliveries(eff.0);
            enqueue_all(&app.tx, eff.1);
            enqueue_all(&app.tx, failed);
        },
        AppMessage::AddPlayerViaQuickplay { player } => {
            let eff = app.add_player_via_quickplay(player);
            let failed = dispatch_deliveries(eff.0);
            enqueue_all(&app.tx, eff.1);
            enqueue_all(&app.tx, failed);
        },
        AppMessage::AddPlayerToLobby { lobby_id, player } => {
            let eff = app.add_player_to_lobby(lobby_id, player);
            let failed = dispatch_deliveries(eff.0);
            enqueue_all(&app.tx, eff.1);
            enqueue_all(&app.tx, failed);
        },
        AppMessage::SendMessage { player, message } => {
            let dels = app.send_chat_message(&player, &message);
            let failed = dispatch_deliveries(dels);
            enqueue_all(&app.tx, failed);
        },
        AppMessage::RemovePlayer { player } => {
            let eff = app.remove_player(&player);
            let failed = dispatch_deliveries(eff.0);
            enqueue_all(&app.tx, eff.1);
            enqueue_all(&app.tx, failed);
        },
        AppMessage::LobbyFull { player_tx } => {
            let dels = lobby_full_reply(player_tx);
            let failed = dispatch_deliveries(dels);
            enqueue_all(&app.tx, failed);
        },
        AppMessage::CurrentLobbies { client_id } => {
            let dels = app.current_lobbies(client_id);
            let failed = dispatch_deliveries(dels);
            enqueue_all(&app.tx, failed);
        },
        AppMessage::SendLobbyInformation { lobby_id } => {
            let dels = app.send_lobby_information(lobby_id);
            let failed = dispatch_deliveries(dels);
            enqueue_all(&app.tx, failed);
        },
        AppMessage::RemoveLobby { lobby_id } => {
            app.remove_lobby(lobby_id);
        },
        AppMessage::SendConnectionCounts => {
            let dels = app.send_connection_counts();
            let failed = dispatch_deliveries(dels);
            enqueue_all(&app.tx, failed);
        },
        AppMessage::AddClient { client_id, client_tx } => {
            let follows = app.add_client(client_id, client_tx);
            enqueue_all(&app.tx, follows);
        },
        AppMessage::RemoveClient { client_id } => {
            let follows = app.remove_client(client_id);
            enqueue_all(&app.tx, follows);
        },
    }
}

/// For every player id, it is a member of at most one lobby at any observed
/// instant: in a well-formed actor state, two lobbies that both hold `pid`
/// are one and the same.
pub proof fn lemma_player_in_at_most_one_lobby(app: App, pid: u64, i: int, j: int)
    requires
        app.wf(),
        0 <= i < app.lobbies@.len(),
        0 <= j < app.lobbies@.len(),
        app.lobbies@[i].has_player(pid),
        app.lobbies@[j].has_player(pid),
    ensures
        i == j,
{
}

/// Capacity is never exceeded: in a well-formed actor state, no lobby's
/// membership is ever observed above its configured limit.
pub proof fn lemma_capacity_never_exceeded(app: App, i: int)
    requires
        app.wf(),
        0 <= i < app.lobbies@.len(),
    ensures
        app.lobbies@[i].players@.len() <= app.lobbies@[i].capacity,
{
    assert(app.lobbies@[i].wf());
}

} // verus!
