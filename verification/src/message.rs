//! Commands into the actor, notifications out of it, and the delivery value
//! that pairs a notification with its recipient.

use vstd::prelude::*;

use crate::lobby::Player;

verus! {

/// One discovery entry: a lobby's identity, display name and player count.
pub struct LobbyInfo {
    pub id: u64,
    pub name: String,
    pub players: usize,
}

/// A notification as observed by a recipient's outbound channel.
#[allow(inconsistent_fields)]
pub enum BackendMessage {
    /// Roster snapshot of one lobby: the display names of its members.
    CurrentPlayers { players: Vec<String> },
    /// A player joined the recipient's lobby.
    PlayerJoined { name: String },
    /// A player left the recipient's lobby.
    PlayerLeft { name: String },
    /// A chat line, attributed to the sending player.
    SendMessage { from: String, message: String },
    /// Discovery snapshot: every open lobby with its player count.
    CurrentLobbies { lobbies: Vec<LobbyInfo> },
    /// Discovery update for a single lobby.
    LobbyInformation { id: u64, name: String, players: usize },
    /// The lobby the recipient tried to join is already full.
    LobbyFull,
    /// How many clients are connected and how many players are in lobbies.
    ConnectionCounts { clients: usize, players: usize },
}

/// A command for the session actor. Producers enqueue these; the actor applies
/// them one at a time.
pub enum AppMessage {
    /// Sends the lobby's current roster to the given player's own channel.
    CurrentPlayers { lobby_id: u64, player: Player },
    /// Allocates a new lobby and admits the player into it.
    CreateLobbyAndAddPlayer { player: Player },
    /// Admits the player into any lobby with free capacity, else a new one.
    AddPlayerViaQuickplay { player: Player },
    /// Admits the player into the named lobby if capacity allows.
    AddPlayerToLobby { lobby_id: u64, player: Player },
    /// Broadcasts the player's chat line to every member of their lobby.
    SendMessage { player: Player, message: String },
    /// Removes the player from the lobby that holds them.
    RemovePlayer { player: Player },
    /// Tells whoever is behind the channel that the lobby was full.
    LobbyFull { player_tx: tokio::sync::mpsc::UnboundedSender<BackendMessage> },
    /// Sends the discovery snapshot to the given client.
    CurrentLobbies { client_id: u64 },
    /// Broadcasts one lobby's name and player count to every client.
    SendLobbyInformation { lobby_id: u64 },
    /// Deletes the lobby entry.
    RemoveLobby { lobby_id: u64 },
    /// Broadcasts the connection counts to every client.
    SendConnectionCounts,
    /// Inserts a client into the registry.
    AddClient { client_id: u64, client_tx: tokio::sync::mpsc::UnboundedSender<BackendMessage> },
    /// Deletes a client from the registry.
    RemoveClient { client_id: u64 },
}

/// Who a notification is addressed to. The removal command synthesized when
/// delivery fails depends on which kind of recipient was targeted.
pub enum Recipient {
    /// A connected client, tracked in the client registry.
    Client { id: u64, tx: tokio::sync::mpsc::UnboundedSender<BackendMessage> },
    /// A lobby member; carried whole so a failed delivery can turn into the
    /// matching `RemovePlayer` command.
    Member { player: Player },
    /// A bare reply channel with no known identity (the `LobbyFull` reply):
    /// a failed delivery to it cannot be converted into a removal.
    Channel { tx: tokio::sync::mpsc::UnboundedSender<BackendMessage> },
}

/// One notification queued for one recipient.
pub struct Delivery {
    pub to: Recipient,
    pub message: BackendMessage,
}

/// The removal command that a failed delivery to `to` converges through:
/// a client that cannot be reached is removed from the registry, a member
/// that cannot be reached is removed from their lobby.
pub open spec fn is_removal_of(m: AppMessage, to: Recipient) -> bool {
    match to {
        Recipient::Client { id, .. } => m matches AppMessage::RemoveClient { client_id } && client_id == id,
        Recipient::Member { player } => m matches AppMessage::RemovePlayer { player: p } && p == player,
        Recipient::Channel { .. } => false,
    }
}

/// Turns an unreachable recipient into the command that removes it from the
/// session state, so that membership converges with reality. A bare reply
/// channel has no identity to remove.
pub fn removal_for(to: Recipient) -> (r: Option<AppMessage>)
    ensures
        match to {
            Recipient::Client { .. } => r matches Some(m) && is_removal_of(m, to),
            Recipient::Member { .. } => r matches Some(m) && is_removal_of(m, to),
            Recipient::Channel { .. } => r is None,
        },
{
    match to {
        Recipient::Client { id, tx: _ } => Some(AppMessage::RemoveClient { client_id: id }),
        Recipient::Member { player } => Some(AppMessage::RemovePlayer { player }),
        Recipient::Channel { tx: _ } => None,
    }
}

/// The direct `LobbyFull` reply: one notification onto the bare channel the
/// rejected join attempt came with.
pub fn lobby_full_reply(
    player_tx: tokio::sync::mpsc::UnboundedSender<BackendMessage>,
) -> (dels: Vec<Delivery>)
    ensures
        dels@.len() == 1,
        dels@[0].to matches Recipient::Channel { tx } && tx == player_tx,
        dels@[0].message matches BackendMessage::LobbyFull,
{
    let mut dels: Vec<Delivery> = Vec::new();
    dels.push(Delivery {
        to: Recipient::Channel { tx: player_tx },
        message: BackendMessage::LobbyFull,
    });
    dels
}

} // verus!
