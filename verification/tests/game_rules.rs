use multiplayer::dioxus_tic_tac_toe as grayed;
use multiplayer::leptos_tic_tac_toe as classic;

fn classic_board(rows: [[u8; 3]; 3]) -> classic::ViewState {
    let board: Vec<Vec<u8>> = rows.iter().map(|r| r.to_vec()).collect();
    classic::ViewState::from_parts(board, true, classic::GameState::Pending).unwrap()
}

fn grayed_board(rows: [[u8; 3]; 3], grayed_square: Option<(u8, u8)>) -> grayed::ViewState {
    let board: Vec<Vec<u8>> = rows.iter().map(|r| r.to_vec()).collect();
    grayed::ViewState::from_parts(board, true, grayed::GameState::Pending, grayed_square).unwrap()
}

#[test]
fn classic_new_is_empty_and_pending() {
    let vs = classic::ViewState::new(false);
    assert_eq!(vs.board, vec![vec![0u8; 3]; 3]);
    assert!(!vs.next_move_host);
    assert_eq!(vs.game_state, classic::GameState::Pending);
}

#[test]
fn classic_apply_delta_places_and_passes_turn() {
    let mut vs = classic::ViewState::new(true);
    vs.apply_delta(&classic::ViewStateDelta { is_circle: true, column: 2, row: 1 });
    assert_eq!(vs.board[1][2], 2);
    assert!(!vs.next_move_host);
    vs.apply_delta(&classic::ViewStateDelta { is_circle: false, column: 0, row: 0 });
    assert_eq!(vs.board[0][0], 1);
    assert!(vs.next_move_host);
    assert_eq!(vs.game_state, classic::GameState::Pending);
}

#[test]
fn classic_row_column_and_diagonals_win() {
    assert_eq!(classic_board([[1, 1, 1], [0, 2, 0], [2, 0, 0]]).check_winning(), classic::GameState::CrossWins);
    assert_eq!(classic_board([[2, 1, 0], [2, 1, 0], [2, 0, 0]]).check_winning(), classic::GameState::CircleWins);
    assert_eq!(classic_board([[2, 1, 0], [1, 2, 0], [0, 0, 2]]).check_winning(), classic::GameState::CircleWins);
    assert_eq!(classic_board([[0, 2, 1], [2, 1, 0], [1, 0, 0]]).check_winning(), classic::GameState::CrossWins);
}

#[test]
fn classic_full_board_without_line_is_draw() {
    assert_eq!(classic_board([[2, 1, 2], [2, 1, 1], [1, 2, 2]]).check_winning(), classic::GameState::Draw);
    assert_eq!(classic_board([[2, 1, 2], [2, 1, 1], [1, 2, 0]]).check_winning(), classic::GameState::Pending);
}

#[test]
fn classic_cross_line_is_checked_first() {
    assert_eq!(classic_board([[1, 1, 1], [2, 2, 2], [0, 0, 0]]).check_winning(), classic::GameState::CrossWins);
}

#[test]
fn classic_legality() {
    let mut vs = classic::ViewState::new(true);
    let mv = classic::StonePlacement { column: 0, row: 0 };
    assert!(vs.check_legality(&mv, 0));
    assert!(!vs.check_legality(&mv, 1));
    assert!(!vs.check_legality(&mv, 2));
    vs.apply_delta(&classic::ViewStateDelta { is_circle: true, column: 0, row: 0 });
    assert!(!vs.check_legality(&mv, 1));
    assert!(vs.check_legality(&classic::StonePlacement { column: 1, row: 0 }, 1));
    // An out-of-turn request is refused before the board is read.
    assert!(!vs.check_legality(&classic::StonePlacement { column: 9, row: 9 }, 0));
}

#[test]
fn classic_from_parts_checks_shape() {
    assert!(classic::ViewState::from_parts(vec![vec![0; 3]; 2], true, classic::GameState::Pending).is_none());
    assert!(classic::ViewState::from_parts(vec![vec![0; 3], vec![0; 2], vec![0; 3]], true, classic::GameState::Pending).is_none());
    assert!(classic::ViewState::from_parts(vec![vec![0; 3]; 3], true, classic::GameState::Draw).is_some());
}

#[test]
fn classic_outcome_follows_board_after_winning_move() {
    let mut vs = classic_board([[1, 1, 0], [2, 2, 0], [0, 0, 0]]);
    vs.apply_delta(&classic::ViewStateDelta { is_circle: true, column: 2, row: 1 });
    assert_eq!(vs.game_state, classic::GameState::CircleWins);
}

#[test]
fn grayed_new_has_no_grayed_square() {
    let vs = grayed::ViewState::new(true);
    assert_eq!(vs.grayed_square, None);
    assert_eq!(vs.board, vec![vec![0u8; 3]; 3]);
    assert!(vs.has_available_moves());
}

#[test]
fn grayed_square_blocks_a_move() {
    let mut vs = grayed::ViewState::new(true);
    vs.apply_delta(&grayed::ViewStateDelta::SquareGrayed { row: 1, col: 1 });
    assert_eq!(vs.grayed_square, Some((1, 1)));
    assert!(!vs.check_legality(&grayed::StonePlacement { column: 1, row: 1 }, 0));
    assert!(vs.check_legality(&grayed::StonePlacement { column: 0, row: 1 }, 0));
}

#[test]
fn grayed_placement_clears_grayed_square() {
    let mut vs = grayed::ViewState::new(true);
    vs.apply_delta(&grayed::ViewStateDelta::SquareGrayed { row: 1, col: 1 });
    vs.apply_delta(&grayed::ViewStateDelta::StonePlaced { is_circle: true, column: 0, row: 0 });
    assert_eq!(vs.grayed_square, None);
    assert_eq!(vs.board[0][0], 2);
    assert!(!vs.next_move_host);
}

#[test]
fn grayed_last_free_square_makes_a_draw() {
    let mut vs = grayed_board([[2, 1, 2], [2, 1, 1], [1, 2, 0]], None);
    assert!(vs.has_available_moves());
    vs.apply_delta(&grayed::ViewStateDelta::SquareGrayed { row: 2, col: 2 });
    assert!(!vs.has_available_moves());
    assert_eq!(vs.game_state, grayed::GameState::Draw);
}

#[test]
fn grayed_square_elsewhere_keeps_game_pending() {
    let mut vs = grayed_board([[2, 1, 2], [2, 1, 1], [1, 2, 0]], None);
    vs.apply_delta(&grayed::ViewStateDelta::SquareGrayed { row: 0, col: 0 });
    assert_eq!(vs.game_state, grayed::GameState::Pending);
    assert!(vs.has_available_moves());
}

#[test]
fn grayed_winning_board() {
    assert_eq!(grayed_board([[0, 0, 2], [0, 2, 0], [2, 1, 1]], None).check_winning(), grayed::GameState::CircleWins);
    assert_eq!(grayed_board([[0, 0, 0], [0, 0, 0], [0, 0, 0]], Some((0, 0))).check_winning(), grayed::GameState::Pending);
}

#[test]
fn turn_balance_over_a_legal_game() {
    // Host starts, moves alternate; circles lead by one after each host move.
    let mut vs = classic::ViewState::new(true);
    let moves = [(0u16, 0u8, 0u8), (1, 1, 1), (0, 2, 2), (1, 0, 2)];
    for (player, row, column) in moves {
        let mv = classic::StonePlacement { column, row };
        assert!(vs.check_legality(&mv, player));
        vs.apply_delta(&classic::ViewStateDelta { is_circle: player == 0, column, row });
        let circles = vs.board.iter().flatten().filter(|c| **c == 2).count() as i64;
        let crosses = vs.board.iter().flatten().filter(|c| **c == 1).count() as i64;
        assert_eq!(circles - crosses, if vs.next_move_host { 0 } else { 1 });
    }
}
