use multiplayer::leptos_tic_tac_toe::{GameState, StonePlacement, ViewState};
use multiplayer::session_flow::{
    connect_failed, game_command, initial_screen, login_command, keeps_session, playing_screen, room_request,
    session_ended, session_step, GameAction, NetCommand, RoomRole, Screen, SessionEvent,
    ViewStateUpdate,
};
use multiplayer::ui::{cell_class, cell_click, cell_look, status_text, GameUiState};

fn ui(player_id: u16, next_move_host: bool, game_state: GameState) -> GameUiState {
    GameUiState { board: vec![vec![2, 0, 0], vec![0; 3], vec![0; 3]], game_state, next_move_host, player_id }
}

#[test]
fn turn_and_clickable_cells() {
    let host = ui(0, true, GameState::Pending);
    assert!(host.is_my_turn());
    assert!(host.cell_clickable(1, 1));
    assert!(!host.cell_clickable(0, 0));
    assert!(!ui(1, true, GameState::Pending).is_my_turn());
    assert!(ui(1, false, GameState::Pending).is_my_turn());
    assert!(!ui(2, true, GameState::Pending).is_my_turn());
    assert!(!ui(0, true, GameState::Draw).cell_clickable(1, 1));
}

#[test]
fn status_lines() {
    assert_eq!(status_text(&ui(0, true, GameState::CrossWins)), "X wins!");
    assert_eq!(status_text(&ui(0, true, GameState::CircleWins)), "O wins!");
    assert_eq!(status_text(&ui(0, true, GameState::Draw)), "Draw!");
    assert_eq!(status_text(&ui(5, true, GameState::Pending)), "Spectating");
    assert_eq!(status_text(&ui(0, true, GameState::Pending)), "Your turn");
    assert_eq!(status_text(&ui(1, true, GameState::Pending)), "Opponent's turn");
}

#[test]
fn cell_looks() {
    assert_eq!(cell_look(1), ("X", " cross"));
    assert_eq!(cell_look(2), ("O", " circle"));
    assert_eq!(cell_look(0), ("", ""));
    assert_eq!(cell_look(7), ("", ""));
}

#[test]
fn clickable_cell_is_accepted_by_host_rules() {
    let vs = ViewState::new(true);
    let screen = ui(0, vs.next_move_host, vs.game_state);
    assert!(screen.cell_clickable(2, 1));
    assert!(vs.check_legality(&StonePlacement { column: 1, row: 2 }, 0));
}

#[test]
fn lobby_commands() {
    let (create, resumed, screen) = room_request(
        NetCommand::CreateRoom { room: "r1".to_string(), allow_spectators: true },
        "ws://relay",
        "tic-tac-toe",
    )
    .unwrap();
    assert!(!resumed);
    assert!(matches!(screen, Screen::Connecting));
    assert_eq!(create.room_id, "r1");
    assert_eq!(create.relay_url, "ws://relay");
    assert_eq!(create.game_id, "tic-tac-toe");
    assert_eq!(create.rule_variation, 1);
    assert_eq!(create.role, RoomRole::Create);
    assert_eq!(create.reconnect_token, None);

    let (join, resumed, _) = room_request(NetCommand::JoinRoom { room: "r2".to_string() }, "u", "g").unwrap();
    assert!(!resumed);
    assert_eq!((join.rule_variation, join.role), (0, RoomRole::Join));

    let (back, resumed, screen) = room_request(
        NetCommand::Reconnect { relay_url: "a".to_string(), game_id: "b".to_string(), room_id: "c".to_string(), token: 9 },
        "u",
        "g",
    )
    .unwrap();
    assert!(resumed);
    assert!(matches!(screen, Screen::Connecting));
    assert_eq!((back.relay_url.as_str(), back.game_id.as_str(), back.room_id.as_str()), ("a", "b", "c"));
    assert_eq!(back.reconnect_token, Some(9));

    assert!(room_request(NetCommand::PlaceStone { column: 0, row: 0 }, "u", "g").is_none());
}

#[test]
fn game_commands() {
    assert_eq!(
        game_command(Some(NetCommand::PlaceStone { column: 1, row: 2 })),
        GameAction::Send(StonePlacement { column: 1, row: 2 })
    );
    assert_eq!(game_command(Some(NetCommand::JoinRoom { room: "x".to_string() })), GameAction::Leave);
    assert_eq!(game_command(None), GameAction::Leave);
}

#[test]
fn screens() {
    assert!(matches!(initial_screen(true), Screen::Connecting));
    assert!(matches!(initial_screen(false), Screen::Login { error: None }));
    assert!(keeps_session(false));
    assert!(!keeps_session(true));
    let (s, forget) = connect_failed("refused".to_string(), true);
    assert!(forget);
    assert!(matches!(s, Screen::Login { error: Some(e) } if e == "refused"));
    assert!(matches!(session_ended(None), Screen::Login { error: None }));
    let mut vs = ViewState::new(true);
    vs.apply_delta(&multiplayer::leptos_tic_tac_toe::ViewStateDelta { is_circle: true, column: 0, row: 0 });
    match playing_screen(&vs, 1) {
        Screen::Playing(state) => {
            assert_eq!(state.board, vs.board);
            assert_eq!(state.player_id, 1);
            assert!(!state.next_move_host);
            assert!(state.is_my_turn());
        }
        _ => panic!("expected the game screen"),
    }
}

#[test]
fn login_buttons() {
    assert!(login_command(String::new(), true, true).is_none());
    assert!(login_command(String::new(), false, false).is_none());
    match login_command("room".to_string(), true, true) {
        Some(NetCommand::CreateRoom { room, allow_spectators }) => {
            assert_eq!(room, "room");
            assert!(allow_spectators);
        }
        _ => panic!("expected a create command"),
    }
    match login_command("room".to_string(), true, false) {
        Some(NetCommand::JoinRoom { room }) => assert_eq!(room, "room"),
        _ => panic!("expected a join command"),
    }
}

#[test]
fn cell_clicks_and_classes() {
    match cell_click(true, 2, 0) {
        Some(NetCommand::PlaceStone { column, row }) => assert_eq!((column, row), (0, 2)),
        _ => panic!("expected a move request"),
    }
    assert!(cell_click(false, 2, 0).is_none());
    assert_eq!(cell_class(1, true), "cell cross clickable");
    assert_eq!(cell_class(2, false), "cell circle");
    assert_eq!(cell_class(0, true), "cell clickable");
    assert_eq!(cell_class(0, false), "cell");
}

#[test]
fn session_steps() {
    let mut vs = ViewState::new(true);
    let (screen, go_on) = session_step(
        &mut vs,
        Some(SessionEvent::Update(ViewStateUpdate::Incremental(multiplayer::leptos_tic_tac_toe::ViewStateDelta { is_circle: true, column: 1, row: 2 }))),
        0,
    );
    assert!(go_on);
    assert_eq!(vs.board[2][1], 2);
    match screen {
        Screen::Playing(ui) => {
            assert_eq!(ui.board, vs.board);
            assert!(!ui.next_move_host);
            assert_eq!(ui.player_id, 0);
        }
        _ => panic!("expected the game screen"),
    }
    let (screen, go_on) = session_step(&mut vs, Some(SessionEvent::Update(ViewStateUpdate::Full(ViewState::new(false)))), 1);
    assert!(go_on);
    assert_eq!(vs.board, vec![vec![0u8; 3]; 3]);
    assert!(matches!(screen, Screen::Playing(ui) if ui.player_id == 1 && !ui.next_move_host));
    let (screen, go_on) = session_step(&mut vs, Some(SessionEvent::Disconnected(Some("gone".to_string()))), 1);
    assert!(!go_on);
    assert!(matches!(screen, Screen::Login { error: Some(e) } if e == "gone"));
    let (screen, go_on) = session_step(&mut vs, None, 1);
    assert!(!go_on);
    assert!(matches!(screen, Screen::Login { error: None }));
}
