use session_actor::actor::{handle_app_message, App};
use session_actor::lobby::Player;
use session_actor::message::{AppMessage, BackendMessage};

use tokio::sync::mpsc::error::TryRecvError;
use tokio::sync::mpsc::{unbounded_channel, UnboundedReceiver, UnboundedSender};

fn new_app(capacity: usize) -> (App, UnboundedReceiver<AppMessage>) {
    let (tx, rx) = unbounded_channel();
    (App::new(tx, capacity), rx)
}

fn new_player(
    id: u64,
    name: &str,
) -> (Player, UnboundedReceiver<BackendMessage>) {
    let (tx, rx) = unbounded_channel();
    (Player { id, name: String::from(name), tx }, rx)
}

fn new_client_channel() -> (
    UnboundedSender<BackendMessage>,
    UnboundedReceiver<BackendMessage>,
) {
    unbounded_channel()
}

/// Applies every command currently sitting in the actor's queue, including
/// the ones those applications enqueue in turn.
fn drain_queue(app: &mut App, rx: &mut UnboundedReceiver<AppMessage>) {
    while let Ok(msg) = rx.try_recv() {
        handle_app_message(app, msg);
    }
}

fn drain_notifications(rx: &mut UnboundedReceiver<BackendMessage>) -> Vec<BackendMessage> {
    let mut out = Vec::new();
    while let Ok(m) = rx.try_recv() {
        out.push(m);
    }
    out
}

#[test]
fn connection_counts_follow_each_mutation() {
    let (mut app, mut rx) = new_app(4);
    let (c1_tx, mut c1_rx) = new_client_channel();
    let (c2_tx, mut c2_rx) = new_client_channel();

    handle_app_message(&mut app, AppMessage::AddClient { client_id: 1, client_tx: c1_tx });
    drain_queue(&mut app, &mut rx);
    handle_app_message(&mut app, AppMessage::AddClient { client_id: 2, client_tx: c2_tx });
    drain_queue(&mut app, &mut rx);
    handle_app_message(&mut app, AppMessage::RemoveClient { client_id: 1 });
    drain_queue(&mut app, &mut rx);

    assert_eq!(app.clients.len(), 1);
    assert_eq!(app.clients[0].id, 2);

    let c1_seen = drain_notifications(&mut c1_rx);
    let c2_seen = drain_notifications(&mut c2_rx);
    // The first client saw the count go 1 then 2 and was then removed.
    assert_eq!(c1_seen.len(), 2);
    assert!(matches!(c1_seen[0], BackendMessage::ConnectionCounts { clients: 1, players: 0 }));
    assert!(matches!(c1_seen[1], BackendMessage::ConnectionCounts { clients: 2, players: 0 }));
    // The second client saw 2, then 1 after the removal: three broadcasts in all.
    assert_eq!(c2_seen.len(), 2);
    assert!(matches!(c2_seen[0], BackendMessage::ConnectionCounts { clients: 2, players: 0 }));
    assert!(matches!(c2_seen[1], BackendMessage::ConnectionCounts { clients: 1, players: 0 }));
}

#[test]
fn connection_counts_include_player_totals() {
    let (mut app, mut rx) = new_app(4);
    let (p1, _r1) = new_player(1, "alice");
    let (p2, _r2) = new_player(2, "bob");
    handle_app_message(&mut app, AppMessage::CreateLobbyAndAddPlayer { player: p1 });
    drain_queue(&mut app, &mut rx);
    handle_app_message(&mut app, AppMessage::AddPlayerViaQuickplay { player: p2 });
    drain_queue(&mut app, &mut rx);

    let (c_tx, mut c_rx) = new_client_channel();
    handle_app_message(&mut app, AppMessage::AddClient { client_id: 3, client_tx: c_tx });
    drain_queue(&mut app, &mut rx);
    let seen = drain_notifications(&mut c_rx);
    assert!(seen.iter().any(|m| matches!(
        m,
        BackendMessage::ConnectionCounts { clients: 1, players: 2 }
    )));
}

#[test]
fn quickplay_fills_open_lobby_then_creates_new() {
    let (mut app, mut rx) = new_app(4);
    let (p1, _r1) = new_player(1, "alice");
    let (p2, _r2) = new_player(2, "bob");
    let (p3, _r3) = new_player(3, "carol");
    let (p4, _r4) = new_player(4, "dave");
    let (p5, _r5) = new_player(5, "erin");

    handle_app_message(&mut app, AppMessage::CreateLobbyAndAddPlayer { player: p1 });
    drain_queue(&mut app, &mut rx);
    handle_app_message(&mut app, AppMessage::AddPlayerViaQuickplay { player: p2 });
    drain_queue(&mut app, &mut rx);
    assert_eq!(app.lobbies.len(), 1);
    assert_eq!(app.lobbies[0].players.len(), 2);

    // Quickplay joins the open lobby rather than creating a new one.
    handle_app_message(&mut app, AppMessage::AddPlayerViaQuickplay { player: p3 });
    drain_queue(&mut app, &mut rx);
    assert_eq!(app.lobbies.len(), 1);
    assert_eq!(app.lobbies[0].players.len(), 3);

    handle_app_message(&mut app, AppMessage::AddPlayerViaQuickplay { player: p4 });
    drain_queue(&mut app, &mut rx);
    assert_eq!(app.lobbies.len(), 1);
    assert_eq!(app.lobbies[0].players.len(), 4);

    // The lobby is full: the next quickplay creates a new lobby instead of
    // rejecting.
    handle_app_message(&mut app, AppMessage::AddPlayerViaQuickplay { player: p5 });
    drain_queue(&mut app, &mut rx);
    assert_eq!(app.lobbies.len(), 2);
    assert_eq!(app.lobbies[0].players.len(), 4);
    assert_eq!(app.lobbies[1].players.len(), 1);
    assert_eq!(app.lobbies[1].players[0].id, 5);
}

#[test]
fn lobby_lifecycle_create_join_leave_remove() {
    let (mut app, mut rx) = new_app(4);
    let (p1, _r1) = new_player(1, "alice");
    let (p1_probe, _pr1) = new_player(1, "alice");
    let (p2, _r2) = new_player(2, "bob");
    let (p2_probe, _pr2) = new_player(2, "bob");

    handle_app_message(&mut app, AppMessage::CreateLobbyAndAddPlayer { player: p1 });
    drain_queue(&mut app, &mut rx);
    assert_eq!(app.lobbies.len(), 1);
    assert_eq!(app.lobbies[0].players.len(), 1);
    assert_eq!(app.lobbies[0].players[0].id, 1);
    let lobby_id = app.lobbies[0].id;

    handle_app_message(&mut app, AppMessage::AddPlayerToLobby { lobby_id, player: p2 });
    drain_queue(&mut app, &mut rx);
    assert_eq!(app.lobbies[0].players.len(), 2);
    assert_eq!(app.lobbies[0].players[0].id, 1);
    assert_eq!(app.lobbies[0].players[1].id, 2);

    handle_app_message(&mut app, AppMessage::RemovePlayer { player: p1_probe });
    drain_queue(&mut app, &mut rx);
    assert_eq!(app.lobbies.len(), 1);
    assert_eq!(app.lobbies[0].players.len(), 1);
    assert_eq!(app.lobbies[0].players[0].id, 2);

    // Removing the last player empties the lobby, which triggers its removal.
    handle_app_message(&mut app, AppMessage::RemovePlayer { player: p2_probe });
    drain_queue(&mut app, &mut rx);
    assert_eq!(app.lobbies.len(), 0);

    // A client asking for the discovery list no longer sees the lobby.
    let (c_tx, mut c_rx) = new_client_channel();
    handle_app_message(&mut app, AppMessage::AddClient { client_id: 9, client_tx: c_tx });
    drain_queue(&mut app, &mut rx);
    let _ = drain_notifications(&mut c_rx);
    handle_app_message(&mut app, AppMessage::CurrentLobbies { client_id: 9 });
    let seen = drain_notifications(&mut c_rx);
    assert_eq!(seen.len(), 1);
    match &seen[0] {
        BackendMessage::CurrentLobbies { lobbies } => assert_eq!(lobbies.len(), 0),
        _ => panic!("expected a discovery snapshot"),
    }
}

#[test]
fn chat_reaches_every_member_and_nobody_else() {
    let (mut app, mut rx) = new_app(4);
    let (p1, mut r1) = new_player(1, "alice");
    let (p1_probe, _pr1) = new_player(1, "alice");
    let (p2, mut r2) = new_player(2, "bob");
    let (p3, mut r3) = new_player(3, "carol");

    handle_app_message(&mut app, AppMessage::CreateLobbyAndAddPlayer { player: p1 });
    drain_queue(&mut app, &mut rx);
    let lobby_id = app.lobbies[0].id;
    handle_app_message(&mut app, AppMessage::AddPlayerToLobby { lobby_id, player: p2 });
    drain_queue(&mut app, &mut rx);
    handle_app_message(&mut app, AppMessage::CreateLobbyAndAddPlayer { player: p3 });
    drain_queue(&mut app, &mut rx);

    // Clear the join-time notifications before the chat line goes out.
    let _ = drain_notifications(&mut r1);
    let _ = drain_notifications(&mut r2);
    let _ = drain_notifications(&mut r3);

    handle_app_message(
        &mut app,
        AppMessage::SendMessage { player: p1_probe, message: String::from("hello") },
    );
    let m1 = drain_notifications(&mut r1);
    let m2 = drain_notifications(&mut r2);
    let m3 = drain_notifications(&mut r3);
    assert_eq!(m1.len(), 1);
    assert!(matches!(
        &m1[0],
        BackendMessage::SendMessage { from, message } if from == "alice" && message == "hello"
    ));
    assert_eq!(m2.len(), 1);
    assert!(matches!(
        &m2[0],
        BackendMessage::SendMessage { from, message } if from == "alice" && message == "hello"
    ));
    // The member of the other lobby hears nothing.
    assert_eq!(m3.len(), 0);
}

#[test]
fn full_lobby_rejects_without_mutation() {
    let (mut app, mut rx) = new_app(1);
    let (p1, _r1) = new_player(1, "alice");
    let (p2, mut r2) = new_player(2, "bob");

    handle_app_message(&mut app, AppMessage::CreateLobbyAndAddPlayer { player: p1 });
    drain_queue(&mut app, &mut rx);
    let lobby_id = app.lobbies[0].id;
    assert_eq!(app.lobbies[0].players.len(), 1);

    handle_app_message(&mut app, AppMessage::AddPlayerToLobby { lobby_id, player: p2 });
    drain_queue(&mut app, &mut rx);
    // Membership is unchanged and the attempting player was told the lobby
    // is full.
    assert_eq!(app.lobbies[0].players.len(), 1);
    assert_eq!(app.lobbies[0].players[0].id, 1);
    let seen = drain_notifications(&mut r2);
    assert_eq!(seen.len(), 1);
    assert!(matches!(seen[0], BackendMessage::LobbyFull));
}

#[test]
fn closed_channel_converges_to_removal() {
    let (mut app, mut rx) = new_app(4);
    let (p1, r1) = new_player(1, "alice");
    let (p2, mut r2) = new_player(2, "bob");
    let (p2_probe, _pr2) = new_player(2, "bob");

    handle_app_message(&mut app, AppMessage::CreateLobbyAndAddPlayer { player: p1 });
    drain_queue(&mut app, &mut rx);
    let lobby_id = app.lobbies[0].id;
    handle_app_message(&mut app, AppMessage::AddPlayerToLobby { lobby_id, player: p2 });
    drain_queue(&mut app, &mut rx);
    assert_eq!(app.lobbies[0].players.len(), 2);

    // The first player's receiving half goes away: the next broadcast to them
    // fails, the rest of the broadcast still goes through, and the failure
    // turns into their removal.
    drop(r1);
    let _ = drain_notifications(&mut r2);
    handle_app_message(
        &mut app,
        AppMessage::SendMessage { player: p2_probe, message: String::from("anyone there?") },
    );
    // The other member still received the chat line.
    let seen = drain_notifications(&mut r2);
    assert_eq!(seen.len(), 1);
    assert!(matches!(
        &seen[0],
        BackendMessage::SendMessage { from, message } if from == "bob" && message == "anyone there?"
    ));
    // The synthesized removal is waiting in the queue; applying it leaves the
    // lobby without the unreachable player.
    drain_queue(&mut app, &mut rx);
    assert_eq!(app.lobbies.len(), 1);
    assert_eq!(app.lobbies[0].players.len(), 1);
    assert_eq!(app.lobbies[0].players[0].id, 2);
}

#[test]
fn discovery_update_and_snapshot_carry_name_and_count() {
    let (mut app, mut rx) = new_app(4);
    let (c_tx, mut c_rx) = new_client_channel();
    handle_app_message(&mut app, AppMessage::AddClient { client_id: 7, client_tx: c_tx });
    drain_queue(&mut app, &mut rx);
    let _ = drain_notifications(&mut c_rx);

    let (p1, _r1) = new_player(1, "alice");
    handle_app_message(&mut app, AppMessage::CreateLobbyAndAddPlayer { player: p1 });
    drain_queue(&mut app, &mut rx);

    // The follow-up discovery update reached the connected client.
    let seen = drain_notifications(&mut c_rx);
    assert!(seen.iter().any(|m| matches!(
        m,
        BackendMessage::LobbyInformation { name, players: 1, .. } if name == "alice's lobby"
    )));

    handle_app_message(&mut app, AppMessage::CurrentLobbies { client_id: 7 });
    let seen = drain_notifications(&mut c_rx);
    assert_eq!(seen.len(), 1);
    match &seen[0] {
        BackendMessage::CurrentLobbies { lobbies } => {
            assert_eq!(lobbies.len(), 1);
            assert_eq!(lobbies[0].name, "alice's lobby");
            assert_eq!(lobbies[0].players, 1);
        },
        _ => panic!("expected a discovery snapshot"),
    }
}

#[test]
fn join_sends_roster_first_then_notifies_members() {
    let (mut app, mut rx) = new_app(4);
    let (p1, mut r1) = new_player(1, "alice");
    let (p2, mut r2) = new_player(2, "bob");

    handle_app_message(&mut app, AppMessage::CreateLobbyAndAddPlayer { player: p1 });
    drain_queue(&mut app, &mut rx);
    let creator_seen = drain_notifications(&mut r1);
    assert_eq!(creator_seen.len(), 1);
    match &creator_seen[0] {
        BackendMessage::CurrentPlayers { players } => {
            assert_eq!(players.len(), 1);
            assert_eq!(players[0], "alice");
        },
        _ => panic!("expected the roster snapshot"),
    }

    let lobby_id = app.lobbies[0].id;
    handle_app_message(&mut app, AppMessage::AddPlayerToLobby { lobby_id, player: p2 });
    drain_queue(&mut app, &mut rx);
    // The newcomer gets the full roster; the prior member gets the join
    // notice.
    let newcomer_seen = drain_notifications(&mut r2);
    assert_eq!(newcomer_seen.len(), 1);
    match &newcomer_seen[0] {
        BackendMessage::CurrentPlayers { players } => {
            assert_eq!(players.len(), 2);
            assert_eq!(players[0], "alice");
            assert_eq!(players[1], "bob");
        },
        _ => panic!("expected the roster snapshot"),
    }
    let member_seen = drain_notifications(&mut r1);
    assert_eq!(member_seen.len(), 1);
    assert!(matches!(
        &member_seen[0],
        BackendMessage::PlayerJoined { name } if name == "bob"
    ));
}

#[test]
fn current_players_goes_only_to_the_asking_player() {
    let (mut app, mut rx) = new_app(4);
    let (p1, mut r1) = new_player(1, "alice");
    let (p1_probe, mut pr1) = new_player(1, "alice");
    let (p2, mut r2) = new_player(2, "bob");

    handle_app_message(&mut app, AppMessage::CreateLobbyAndAddPlayer { player: p1 });
    drain_queue(&mut app, &mut rx);
    let lobby_id = app.lobbies[0].id;
    handle_app_message(&mut app, AppMessage::AddPlayerToLobby { lobby_id, player: p2 });
    drain_queue(&mut app, &mut rx);
    let _ = drain_notifications(&mut r1);
    let _ = drain_notifications(&mut r2);

    // The resync request carries its own reply channel; only that channel
    // hears the roster.
    handle_app_message(&mut app, AppMessage::CurrentPlayers { lobby_id, player: p1_probe });
    let seen = drain_notifications(&mut pr1);
    assert_eq!(seen.len(), 1);
    match &seen[0] {
        BackendMessage::CurrentPlayers { players } => {
            assert_eq!(players.len(), 2);
        },
        _ => panic!("expected the roster snapshot"),
    }
    assert_eq!(drain_notifications(&mut r1).len(), 0);
    assert_eq!(drain_notifications(&mut r2).len(), 0);
}

#[test]
fn unknown_references_are_dropped_without_effect() {
    let (mut app, mut rx) = new_app(4);
    let (p1, _r1) = new_player(1, "alice");
    let (p1_probe, _pr1) = new_player(1, "alice");
    let (p2, _r2) = new_player(2, "bob");

    handle_app_message(&mut app, AppMessage::CreateLobbyAndAddPlayer { player: p1 });
    drain_queue(&mut app, &mut rx);

    // Unknown lobby: no admission happens.
    handle_app_message(&mut app, AppMessage::AddPlayerToLobby { lobby_id: 999, player: p2 });
    drain_queue(&mut app, &mut rx);
    assert_eq!(app.lobbies.len(), 1);
    assert_eq!(app.lobbies[0].players.len(), 1);

    // A player in no lobby: chat and removal are dropped.
    let (p9, _r9) = new_player(9, "mallory");
    let (p9_probe, _pr9) = new_player(9, "mallory");
    handle_app_message(
        &mut app,
        AppMessage::SendMessage { player: p9, message: String::from("hi") },
    );
    handle_app_message(&mut app, AppMessage::RemovePlayer { player: p9_probe });
    drain_queue(&mut app, &mut rx);
    assert_eq!(app.lobbies.len(), 1);
    assert_eq!(app.lobbies[0].players.len(), 1);

    // A player already in a lobby is not admitted a second time.
    handle_app_message(&mut app, AppMessage::CreateLobbyAndAddPlayer { player: p1_probe });
    drain_queue(&mut app, &mut rx);
    assert_eq!(app.lobbies.len(), 1);

    // Unknown client and unknown lobby for the discovery queries: nothing is
    // sent anywhere and the actor keeps running.
    handle_app_message(&mut app, AppMessage::CurrentLobbies { client_id: 42 });
    handle_app_message(&mut app, AppMessage::SendLobbyInformation { lobby_id: 999 });
    drain_queue(&mut app, &mut rx);
    assert_eq!(app.lobbies.len(), 1);
    match rx.try_recv() {
        Err(TryRecvError::Empty) => {},
        _ => panic!("the queue should be empty"),
    }
}
