//! One lobby: a bounded-capacity player registry with lobby-scoped
//! broadcast. All membership mutation goes through the methods here; the
//! methods never deliver anything themselves, they hand back the deliveries
//! and follow-up commands for the actor to carry out.

use vstd::prelude::*;

use crate::channel::channel_clone;
use crate::message::{AppMessage, BackendMessage, Delivery, Recipient};

verus! {

/// A user who has joined (or is joining) a lobby: identity, display name,
/// and the channel notifications for them are delivered on.
pub struct Player {
    pub id: u64,
    pub name: String,
    pub tx: tokio::sync::mpsc::UnboundedSender<BackendMessage>,
}

/// A bounded-capacity grouping of players sharing one session.
pub struct Lobby {
    pub id: u64,
    pub name: String,
    pub capacity: usize,
    pub players: Vec<Player>,
}

/// `names` is the roster of `players`: one display name per member, in order.
pub open spec fn roster_matches(names: Seq<String>, players: Seq<Player>) -> bool {
    &&& names.len() == players.len()
    &&& forall|k: int| 0 <= k < names.len() ==> names[k] == players[k].name
}

/// Identity, display name and capacity survive a membership change.
pub open spec fn lobby_header_unchanged(pre: Lobby, post: Lobby) -> bool {
    &&& post.id == pre.id
    &&& post.name == pre.name
    &&& post.capacity == pre.capacity
}

/// The membership change of a successful admission: `player` appended,
/// nothing else touched.
pub open spec fn admit_state(pre: Lobby, post: Lobby, player: Player) -> bool {
    &&& lobby_header_unchanged(pre, post)
    &&& post.players@ == pre.players@.push(player)
}

/// The membership change of a removal: the single entry carrying `pid` is
/// taken out, everything else is kept in order.
pub open spec fn leave_state(pre: Lobby, post: Lobby, pid: u64) -> bool {
    &&& lobby_header_unchanged(pre, post)
    &&& exists|i: int|
        0 <= i < pre.players@.len() && pre.players@[i].id == pid
        && post.players@ == pre.players@.remove(i)
}

/// Everything a successful admission hands back: the appended membership,
/// the roster snapshot queued for the newcomer first, one join notice per
/// prior member, and the discovery-update request for this lobby.
pub open spec fn admit_effects(
    pre: Lobby,
    post: Lobby,
    player: Player,
    dels: Seq<Delivery>,
    follows: Seq<AppMessage>,
) -> bool {
    &&& admit_state(pre, post, player)
    &&& dels.len() == pre.players@.len() + 1
    &&& (dels[0].to matches Recipient::Member { player: p }
        && p.id == player.id && p.name == player.name)
    &&& (dels[0].message matches BackendMessage::CurrentPlayers { players: names }
        && roster_matches(names@, post.players@))
    &&& forall|k: int|
        #![trigger dels[k]]
        1 <= k < dels.len() ==>
        (dels[k].to matches Recipient::Member { player: q }
            && q.id == pre.players@[k - 1].id
            && q.name == pre.players@[k - 1].name)
        && (dels[k].message matches BackendMessage::PlayerJoined { name }
            && name == player.name)
    &&& follows.len() == 1
    &&& (follows[0] matches AppMessage::SendLobbyInformation { lobby_id }
        && lobby_id == pre.id)
}

/// Everything a rejected admission hands back: membership untouched, no
/// direct delivery, one `LobbyFull` reply routed to the attempting player's
/// channel through the actor.
pub open spec fn full_effects(
    pre: Lobby,
    post: Lobby,
    player: Player,
    dels: Seq<Delivery>,
    follows: Seq<AppMessage>,
) -> bool {
    &&& post == pre
    &&& dels.len() == 0
    &&& follows.len() == 1
    &&& (follows[0] matches AppMessage::LobbyFull { player_tx } && player_tx == player.tx)
}

/// Everything a removal hands back: the shrunk membership, one leave notice
/// per remaining member, and — exactly when the lobby has emptied — the
/// request to delete it.
pub open spec fn leave_effects(
    pre: Lobby,
    post: Lobby,
    player: Player,
    dels: Seq<Delivery>,
    follows: Seq<AppMessage>,
) -> bool {
    &&& leave_state(pre, post, player.id)
    &&& !post.has_player(player.id)
    &&& dels.len() == post.players@.len()
    &&& forall|k: int|
        #![trigger dels[k]]
        0 <= k < dels.len() ==>
        (dels[k].to matches Recipient::Member { player: q }
            && q.id == post.players@[k].id
            && q.name == post.players@[k].name)
        && (dels[k].message matches BackendMessage::PlayerLeft { name }
            && name == player.name)
    &&& post.players@.len() == 0 ==> follows.len() == 1
        && (follows[0] matches AppMessage::RemoveLobby { lobby_id }
            && lobby_id == pre.id)
    &&& post.players@.len() > 0 ==> follows.len() == 0
}

/// A chat line from `from` is queued for every member of `lobby`, in
/// membership order, and for nobody else.
pub open spec fn chat_effects(
    lobby: Lobby,
    from: Player,
    text: String,
    dels: Seq<Delivery>,
) -> bool {
    &&& dels.len() == lobby.players@.len()
    &&& forall|k: int|
        #![trigger dels[k]]
        0 <= k < dels.len() ==>
        (dels[k].to matches Recipient::Member { player: q }
            && q.id == lobby.players@[k].id
            && q.name == lobby.players@[k].name)
        && (dels[k].message matches BackendMessage::SendMessage { from: f, message: m }
            && f == from.name && m == text)
}

/// A copy of a player record pointing at the same outbound queue. The channel
/// handle is opaque, so only identity and name are related to the original.
pub fn clone_player(p: &Player) -> (r: Player)
    ensures
        r.id == p.id,
        r.name == p.name,
{
    Player { id: p.id, name: p.name.clone(), tx: channel_clone(&p.tx) }
}

impl Lobby {
    /// Some member of this lobby has id `pid`.
    pub open spec fn has_player(self, pid: u64) -> bool {
        exists|i: int| 0 <= i < self.players@.len() && self.players@[i].id == pid
    }

    /// Well-formed: at least one seat, membership within capacity, and no
    /// player id listed twice.
    pub open spec fn wf(self) -> bool {
        &&& self.capacity >= 1
        &&& self.players@.len() <= self.capacity
        &&& forall|i: int, j: int|
            0 <= i < j < self.players@.len() ==> self.players@[i].id != self.players@[j].id
    }

    /// Linear scan for the member with id `pid`.
    fn index_of_player(&self, pid: u64) -> (r: Option<usize>)
        ensures
            match r {
                Some(i) => i < self.players@.len() && self.players@[i as int].id == pid,
                None => !self.has_player(pid),
            },
    {
        let mut k: usize = 0;
        while k < self.players.len()
            invariant
                k <= self.players@.len(),
                forall|j: int| 0 <= j < k ==> self.players@[j].id != pid,
            decreases self.players@.len() - k,
        {
            if self.players[k].id == pid {
                return Some(k);
            }
            k += 1;
        }
        None
    }

    /// Whether `pid` is a member of this lobby.
    pub fn contains_player(&self, pid: u64) -> (b: bool)
        ensures
            b == self.has_player(pid),
    {
        self.index_of_player(pid).is_some()
    }

    /// The members' display names, in membership order.
    pub fn player_names(&self) -> (names: Vec<String>)
        ensures
            roster_matches(names@, self.players@),
    {
        let mut names: Vec<String> = Vec::new();
        let mut k: usize = 0;
        while k < self.players.len()
            invariant
                k <= self.players@.len(),
                names@.len() == k,
                forall|j: int| 0 <= j < k ==> names@[j] == self.players@[j].name,
            decreases self.players@.len() - k,
        {
            names.push(self.players[k].name.clone());
            k += 1;
        }
        names
    }

    /// Queues the current roster snapshot for `player`'s own channel, used on
    /// join and on an explicit resync request.
    pub fn send_current_players(&self, player: Player) -> (dels: Vec<Delivery>)
        ensures
            dels@.len() == 1,
            dels@[0].to matches Recipient::Member { player: p } && p == player,
            dels@[0].message matches BackendMessage::CurrentPlayers { players: names }
                && roster_matches(names@, self.players@),
    {
        let names = self.player_names();
        let mut dels: Vec<Delivery> = Vec::new();
        dels.push(Delivery {
            to: Recipient::Member { player },
            message: BackendMessage::CurrentPlayers { players: names },
        });
        dels
    }

    /// Admission. The capacity check precedes any mutation: a full lobby is
    /// left exactly as it was and the attempt only yields a `LobbyFull`
    /// reply. Otherwise the newcomer is inserted, receives the new roster
    /// first, every prior member gets a join notice, and a discovery update
    /// for this lobby is requested.
    pub fn add_player(&mut self, player: Player) -> (eff: (Vec<Delivery>, Vec<AppMessage>))
        requires
            old(self).wf(),
            !old(self).has_player(player.id),
        ensures
            final(self).wf(),
            old(self).players@.len() < old(self).capacity ==>
                admit_effects(*old(self), *final(self), player, eff.0@, eff.1@),
            old(self).players@.len() >= old(self).capacity ==>
                full_effects(*old(self), *final(self), player, eff.0@, eff.1@),
    {
        if self.players.len() >= self.capacity {
            let mut follows: Vec<AppMessage> = Vec::new();
            follows.push(AppMessage::LobbyFull { player_tx: player.tx });
            return (Vec::new(), follows);
        }
        let newcomer = clone_player(&player);
        let joined_name = player.name.clone();
        self.players.push(player);

        let names = self.player_names();
        let mut dels: Vec<Delivery> = Vec::new();
        dels.push(Delivery {
            to: Recipient::Member { player: newcomer },
            message: BackendMessage::CurrentPlayers { players: names },
        });
        let prior: usize = self.players.len() - 1;
        let mut k: usize = 0;
        while k < prior
            invariant
                prior == self.players@.len() - 1,
                k <= prior,
                self.players@.len() >= 1,
                dels@.len() == k + 1,
                (dels@[0].to matches Recipient::Member { player: p }
                    && p.id == self.players@[prior as int].id
                    && p.name == self.players@[prior as int].name),
                (dels@[0].message matches BackendMessage::CurrentPlayers { players: ns }
                    && roster_matches(ns@, self.players@)),
                joined_name == self.players@[prior as int].name,
                forall|j: int|
                    #![trigger dels@[j]]
                    1 <= j < dels@.len() ==>
                    (dels@[j].to matches Recipient::Member { player: q }
                        && q.id == self.players@[j - 1].id
                        && q.name == self.players@[j - 1].name)
                    && (dels@[j].message matches BackendMessage::PlayerJoined { name }
                        && name == joined_name),
            decreases prior - k,
        {
            let member = clone_player(&self.players[k]);
            dels.push(Delivery {
                to: Recipient::Member { player: member },
                message: BackendMessage::PlayerJoined { name: joined_name.clone() },
            });
            k += 1;
        }
        let mut follows: Vec<AppMessage> = Vec::new();
        follows.push(AppMessage::SendLobbyInformation { lobby_id: self.id });
        (dels, follows)
    }

    /// Removes the member with `player`'s id, queues a leave notice for every
    /// remaining member, and, when the lobby has emptied, asks the actor to
    /// delete it.
    pub fn remove_player(&mut self, player: &Player) -> (eff: (Vec<Delivery>, Vec<AppMessage>))
        requires
            old(self).wf(),
            old(self).has_player(player.id),
        ensures
            final(self).wf(),
            leave_effects(*old(self), *final(self), *player, eff.0@, eff.1@),
    {
        let i = match self.index_of_player(player.id) {
            Some(i) => i,
            None => {
                proof {
                    assert(false);
                }
                0
            },
        };
        let ghost pre = self.players@;
        self.players.remove(i);
        proof {
            assert forall|j: int| 0 <= j < self.players@.len() implies self.players@[j].id
                != player.id by {
                if j < i {
                    assert(self.players@[j] == pre[j]);
                } else {
                    assert(self.players@[j] == pre[j + 1]);
                }
            }
        }

        let mut dels: Vec<Delivery> = Vec::new();
        let mut k: usize = 0;
        while k < self.players.len()
            invariant
                k <= self.players@.len(),
                dels@.len() == k,
                forall|j: int|
                    #![trigger dels@[j]]
                    0 <= j < k ==>
                    (dels@[j].to matches Recipient::Member { player: q }
                        && q.id == self.players@[j].id
                        && q.name == self.players@[j].name)
                    && (dels@[j].message matches BackendMessage::PlayerLeft { name }
                        && name == player.name),
            decreases self.players@.len() - k,
        {
            let member = clone_player(&self.players[k]);
            dels.push(Delivery {
                to: Recipient::Member { player: member },
                message: BackendMessage::PlayerLeft { name: player.name.clone() },
            });
            k += 1;
        }

        let mut follows: Vec<AppMessage> = Vec::new();
        if self.players.len() == 0 {
            follows.push(AppMessage::RemoveLobby { lobby_id: self.id });
        }
        (dels, follows)
    }

    /// Queues a chat line, attributed to `from`, for every member of this
    /// lobby — the sender included, so their own message is echoed back —
    /// and for nobody else.
    pub fn send_message(&self, from: &Player, text: &String) -> (dels: Vec<Delivery>)
        ensures
            chat_effects(*self, *from, *text, dels@),
    {
        let mut dels: Vec<Delivery> = Vec::new();
        let mut k: usize = 0;
        while k < self.players.len()
            invariant
                k <= self.players@.len(),
                dels@.len() == k,
                forall|j: int|
                    #![trigger dels@[j]]
                    0 <= j < k ==>
                    (dels@[j].to matches Recipient::Member { player: q }
                        && q.id == self.players@[j].id
                        && q.name == self.players@[j].name)
                    && (dels@[j].message matches BackendMessage::SendMessage { from: f, message: m }
                        && f == from.name && m == *text),
            decreases self.players@.len() - k,
        {
            let member = clone_player(&self.players[k]);
            dels.push(Delivery {
                to: Recipient::Member { player: member },
                message: BackendMessage::SendMessage {
                    from: from.name.clone(),
                    message: text.clone(),
                },
            });
            k += 1;
        }
        dels
    }
}

} // verus!
