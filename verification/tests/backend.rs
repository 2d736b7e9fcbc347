use multiplayer::backend::{BackendCommand, TicTacToeLogic};
use multiplayer::dioxus_tic_tac_toe::{GameState, StonePlacement, ViewState, ViewStateDelta};

fn mv(row: u8, column: u8) -> StonePlacement {
    StonePlacement { column, row }
}

#[test]
fn new_backend_queues_nothing() {
    let mut logic = TicTacToeLogic::new(0);
    assert!(logic.drain_commands().is_empty());
    assert!(logic.get_view_state().next_move_host);
    assert_eq!(logic.get_view_state().game_state, GameState::Pending);
}

#[test]
fn spectators_are_kicked_unless_allowed() {
    let mut strict = TicTacToeLogic::new(0);
    strict.player_arrival(2);
    strict.player_arrival(0);
    assert_eq!(strict.drain_commands(), vec![BackendCommand::KickPlayer { player: 2 }]);

    let mut open = TicTacToeLogic::new(1);
    open.player_arrival(2);
    assert!(open.drain_commands().is_empty());
}

#[test]
fn guest_leaving_starts_grace_timer_and_return_cancels_it() {
    let mut logic = TicTacToeLogic::new(0);
    logic.player_departure(1);
    logic.player_departure(4);
    logic.player_arrival(1);
    assert_eq!(
        logic.drain_commands(),
        vec![
            BackendCommand::SetTimer { timer_id: 1, duration_secs: 30 },
            BackendCommand::CancelTimer { timer_id: 1 },
        ]
    );
}

#[test]
fn host_leaving_closes_the_room() {
    let mut logic = TicTacToeLogic::new(0);
    logic.inform_rpc(0, mv(0, 0));
    logic.drain_commands();
    logic.player_departure(0);
    assert_eq!(logic.drain_commands(), vec![BackendCommand::TerminateRoom]);
}

#[test]
fn grace_timer_terminates_room() {
    let mut logic = TicTacToeLogic::new(0);
    logic.timer_triggered(1);
    logic.timer_triggered(7);
    assert_eq!(logic.drain_commands(), vec![BackendCommand::TerminateRoom]);
}

#[test]
fn legal_move_is_broadcast() {
    let mut logic = TicTacToeLogic::new(0);
    logic.inform_rpc(0, mv(1, 1));
    assert_eq!(
        logic.drain_commands(),
        vec![BackendCommand::Delta(ViewStateDelta::StonePlaced { is_circle: true, column: 1, row: 1 })]
    );
    assert_eq!(logic.get_view_state().board[1][1], 2);
    assert!(!logic.get_view_state().next_move_host);
}

#[test]
fn illegal_moves_change_nothing() {
    let mut logic = TicTacToeLogic::new(0);
    logic.inform_rpc(1, mv(0, 0)); // not the guest's turn
    logic.inform_rpc(3, mv(0, 0)); // spectator
    logic.inform_rpc(0, mv(0, 0));
    logic.drain_commands();
    logic.inform_rpc(1, mv(0, 0)); // occupied
    assert!(logic.drain_commands().is_empty());
    assert_eq!(logic.get_view_state().board[0][0], 2);
}

#[test]
fn winning_move_sets_next_round_timer_and_freezes_game() {
    let mut logic = TicTacToeLogic::new(0);
    for (p, r, c) in [(0u16, 0u8, 0u8), (1, 1, 0), (0, 0, 1), (1, 1, 1), (0, 0, 2)] {
        logic.inform_rpc(p, mv(r, c));
    }
    assert_eq!(logic.get_view_state().game_state, GameState::CircleWins);
    let cmds = logic.drain_commands();
    assert_eq!(cmds.len(), 6);
    assert_eq!(cmds[5], BackendCommand::SetTimer { timer_id: 0, duration_secs: 5 });
    logic.inform_rpc(1, mv(2, 2));
    assert!(logic.drain_commands().is_empty());
    assert_eq!(logic.get_view_state().board[2][2], 0);
}

#[test]
fn next_round_timer_swaps_starter_and_resets() {
    let mut logic = TicTacToeLogic::new(0);
    logic.inform_rpc(0, mv(0, 0));
    logic.drain_commands();
    logic.timer_triggered(0);
    assert_eq!(logic.drain_commands(), vec![BackendCommand::ResetViewState]);
    assert_eq!(logic.get_view_state().board, vec![vec![0u8; 3]; 3]);
    assert!(!logic.get_view_state().next_move_host);
    logic.timer_triggered(0);
    assert!(logic.get_view_state().next_move_host);
}

#[test]
fn resumed_backend_starts_with_player_to_move() {
    let vs = ViewState::from_parts(vec![vec![2, 0, 0], vec![0; 3], vec![0; 3]], false, GameState::Pending, None).unwrap();
    let mut logic = TicTacToeLogic::from_view_state(1, vs);
    assert!(!logic.get_view_state().next_move_host);
    logic.player_arrival(5);
    assert!(logic.drain_commands().is_empty());
    logic.timer_triggered(0);
    assert!(logic.get_view_state().next_move_host);
}

#[test]
fn can_judge_reports_out_of_board_requests() {
    let logic = TicTacToeLogic::new(0);
    assert!(!logic.can_judge(0, mv(3, 0)));
    assert!(logic.can_judge(1, mv(3, 0)));
    assert!(logic.can_judge(0, mv(2, 2)));
}
