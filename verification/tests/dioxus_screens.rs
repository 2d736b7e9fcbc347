use multiplayer::dioxus_flow::{
    cell_click, command_call, tick, ConnectionState, NetCommand, Screen, TransportCall, ViewStateUpdate,
};
use multiplayer::dioxus_tic_tac_toe::{GameState, StonePlacement, ViewState, ViewStateDelta};

#[test]
fn commands_become_transport_calls() {
    match command_call(NetCommand::CreateRoom { room: "r".to_string(), allow_spectators: true }) {
        TransportCall::StartServer { room, rule_variation } => assert_eq!((room.as_str(), rule_variation), ("r", 1)),
        _ => panic!("expected to host"),
    }
    match command_call(NetCommand::CreateRoom { room: "r".to_string(), allow_spectators: false }) {
        TransportCall::StartServer { rule_variation, .. } => assert_eq!(rule_variation, 0),
        _ => panic!("expected to host"),
    }
    assert!(matches!(command_call(NetCommand::JoinRoom { room: "q".to_string() }), TransportCall::StartClient { room } if room == "q"));
    assert!(matches!(
        command_call(NetCommand::PlaceStone { column: 2, row: 1 }),
        TransportCall::SendRpc(StonePlacement { column: 2, row: 1 })
    ));
}

#[test]
fn dioxus_cell_click() {
    assert!(matches!(cell_click(true, 1, 2), Some(NetCommand::PlaceStone { column: 2, row: 1 })));
    assert!(cell_click(false, 1, 2).is_none());
}

#[test]
fn ticks() {
    let mut local: Option<ViewState> = None;
    assert!(matches!(tick(ConnectionState::AwaitingHandshake, &mut local, vec![]), Screen::Connecting));
    assert!(local.is_none());
    let screen = tick(
        ConnectionState::Connected { player_id: 1 },
        &mut local,
        vec![
            ViewStateUpdate::Incremental(ViewStateDelta::StonePlaced { is_circle: true, column: 0, row: 0 }),
            ViewStateUpdate::Incremental(ViewStateDelta::SquareGrayed { row: 1, col: 1 }),
        ],
    );
    match screen {
        Screen::Playing(ui) => {
            assert_eq!(ui.board[0][0], 2);
            assert!(!ui.next_move_host);
            assert_eq!(ui.player_id, 1);
            assert_eq!(ui.game_state, GameState::Pending);
        }
        _ => panic!("expected the game screen"),
    }
    assert_eq!(local.as_ref().unwrap().grayed_square, Some((1, 1)));
    let screen = tick(ConnectionState::Connected { player_id: 1 }, &mut local, vec![ViewStateUpdate::Full(ViewState::new(false))]);
    assert!(matches!(screen, Screen::Playing(ui) if ui.board == vec![vec![0u8; 3]; 3]));
    assert!(matches!(tick(ConnectionState::ExecutingHandshake, &mut local, vec![]), Screen::Connecting));
    assert!(local.is_some());
    let screen = tick(ConnectionState::Disconnected { error_string: Some("lost".to_string()) }, &mut local, vec![]);
    assert!(matches!(screen, Screen::Login { error: Some(e) } if e == "lost"));
    assert!(local.is_none());
}
