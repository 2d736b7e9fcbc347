//! What the game screen shows and offers: whose turn the status line names,
//! which cells may be clicked, and how a cell is drawn.
use crate::board::{board_model, cell, shape_ok, EMPTY};
use crate::leptos_tic_tac_toe::{GameState, StonePlacement, ViewStateModel};
use crate::session_flow::NetCommand;
use vstd::prelude::*;
use vstd::string::*;

verus! {

/// The complete game state the UI needs to render the board.
#[derive(Clone, Debug)]
pub struct GameUiState {
    pub board: Vec<Vec<u8>>,
    pub game_state: GameState,
    /// true = host's turn (host plays ○, value 2)
    pub next_move_host: bool,
    /// 0 = host (○), 1 = guest (✕), >1 = spectator
    pub player_id: u16,
}

/// The viewer may move now: the game is pending, the viewer is one of the
/// two players, and the turn is theirs (the host, player 0, moves when
/// `next_move_host`).
pub open spec fn my_turn(game_state: GameState, player_id: u16, next_move_host: bool) -> bool {
    game_state == GameState::Pending && player_id <= 1 && ((player_id == 0) == next_move_host)
}

/// The status line for a viewer.
pub open spec fn status_of(game_state: GameState, player_id: u16, next_move_host: bool) -> Seq<
    char,
> {
    match game_state {
        GameState::CrossWins => "X wins!"@,
        GameState::CircleWins => "O wins!"@,
        GameState::Draw => "Draw!"@,
        GameState::Pending => if player_id > 1 {
            "Spectating"@
        } else if (player_id == 0) == next_move_host {
            "Your turn"@
        } else {
            "Opponent's turn"@
        },
    }
}

/// How a cell value is drawn: its symbol and the extra style class.
pub open spec fn look_of(value: u8) -> (Seq<char>, Seq<char>) {
    if value == 1 {
        ("X"@, " cross"@)
    } else if value == 2 {
        ("O"@, " circle"@)
    } else {
        (""@, ""@)
    }
}

impl GameUiState {
    /// The board has three rows of three cells.
    pub open spec fn wf(&self) -> bool {
        shape_ok(board_model(self.board@))
    }

    /// Whether the viewer may move now.
    pub fn is_my_turn(&self) -> (mine: bool)
        ensures
            mine == my_turn(self.game_state, self.player_id, self.next_move_host),
    {
        let game_over = self.game_state != GameState::Pending;
        let is_spectator = self.player_id > 1;
        !game_over && !is_spectator && ((self.player_id == 0) == self.next_move_host)
    }

    /// Whether the cell at (`row`, `col`) may be clicked: it is the viewer's
    /// turn and the cell is empty.
    pub fn cell_clickable(&self, row: u8, col: u8) -> (clickable: bool)
        requires
            self.wf(),
            row < 3,
            col < 3,
        ensures
            clickable == (my_turn(self.game_state, self.player_id, self.next_move_host) && cell(
                board_model(self.board@),
                row as int,
                col as int,
            ) == EMPTY),
    {
        proof {
            assert(board_model(self.board@)[row as int] == self.board@[row as int]@);
        }
        let value = self.board[row as usize][col as usize];
        self.is_my_turn() && value == EMPTY
    }
}

/// The status line shown above the board.
pub fn status_text(state: &GameUiState) -> (text: &'static str)
    ensures
        text@ == status_of(state.game_state, state.player_id, state.next_move_host),
{
    match state.game_state {
        GameState::CrossWins => "X wins!",
        GameState::CircleWins => "O wins!",
        GameState::Draw => "Draw!",
        GameState::Pending => {
            if state.player_id > 1 {
                "Spectating"
            } else if (state.player_id == 0) == state.next_move_host {
                "Your turn"
            } else {
                "Opponent's turn"
            }
        },
    }
}

/// The symbol of a cell and the style class added for it.
pub fn cell_look(value: u8) -> (look: (&'static str, &'static str))
    ensures
        (look.0@, look.1@) == look_of(value),
{
    match value {
        1 => ("X", " cross"),
        2 => ("O", " circle"),
        _ => ("", ""),
    }
}

/// The style class of a cell: `cell`, the extra class of its value, and
/// ` clickable` exactly when it may be clicked.
pub open spec fn class_of(value: u8, clickable: bool) -> Seq<char> {
    "cell"@ + look_of(value).1 + (if clickable {
        " clickable"@
    } else {
        ""@
    })
}

/// The style class of a cell.
pub fn cell_class(value: u8, clickable: bool) -> (class: String)
    ensures
        class@ == class_of(value, clickable),
{
    let (_, extra) = cell_look(value);
    let mut class = String::from_str("cell");
    class.append(extra);
    if clickable {
        class.append(" clickable");
    }
    proof {
        reveal_strlit("");
    }
    assert(class@ =~= class_of(value, clickable));
    class
}

/// What a click on the cell at (`row`, `col`) sends: a move request for that
/// cell, with column `col` and row `row`, when the cell is clickable, and
/// nothing otherwise.
pub fn cell_click(clickable: bool, row: u8, col: u8) -> (cmd: Option<NetCommand>)
    ensures
        clickable ==> cmd == Some(NetCommand::PlaceStone { column: col, row }),
        !clickable ==> cmd is None,
{
    if clickable {
        Some(NetCommand::PlaceStone { column: col, row })
    } else {
        None
    }
}

/// A cell that the screen offers for a click is a move that the host
/// accepts: when the screen shows the host's view state, a clickable cell is
/// a legal move of the viewer in a pending game.
pub proof fn lemma_clickable_cell_is_legal_move(
    s: ViewStateModel,
    player_id: u16,
    row: u8,
    col: u8,
)
    requires
        s.wf(),
        row < 3,
        col < 3,
        my_turn(s.game_state, player_id, s.next_move_host),
        cell(s.board, row as int, col as int) == EMPTY,
    ensures
        s.game_state == GameState::Pending,
        s.legal(StonePlacement { column: col, row }, player_id),
        s.checkable(StonePlacement { column: col, row }, player_id),
{
}

/// A spectator is never offered a move, and in a pending game exactly one of
/// the two players is.
pub proof fn lemma_one_player_to_move(game_state: GameState, next_move_host: bool, spectator: u16)
    requires
        spectator > 1,
    ensures
        !my_turn(game_state, spectator, next_move_host),
        game_state == GameState::Pending ==> (my_turn(game_state, 0, next_move_host) != my_turn(
            game_state,
            1,
            next_move_host,
        )),
        game_state != GameState::Pending ==> !my_turn(game_state, 0, next_move_host) && !my_turn(
            game_state,
            1,
            next_move_host,
        ),
{
}

/// The status line tells each player whose turn it is: in a pending game
/// the host (player 0) reads "Your turn" exactly when the host moves next
/// and the guest (player 1) exactly when the host does not; the other
/// player reads "Opponent's turn"; anyone else is spectating. A finished
/// game names its outcome to everyone.
pub proof fn lemma_status_names_the_mover(player_id: u16, next_move_host: bool)
    ensures
        player_id <= 1 ==> (status_of(GameState::Pending, player_id, next_move_host)
            == "Your turn"@ <==> ((player_id == 0 && next_move_host) || (player_id == 1
            && !next_move_host))),
        player_id <= 1 ==> (status_of(GameState::Pending, player_id, next_move_host)
            == "Opponent's turn"@ <==> !((player_id == 0 && next_move_host) || (player_id == 1
            && !next_move_host))),
        player_id > 1 ==> status_of(GameState::Pending, player_id, next_move_host)
            == "Spectating"@,
        status_of(GameState::CrossWins, player_id, next_move_host) == "X wins!"@,
        status_of(GameState::CircleWins, player_id, next_move_host) == "O wins!"@,
        status_of(GameState::Draw, player_id, next_move_host) == "Draw!"@,
{
    reveal_strlit("Your turn");
    reveal_strlit("Opponent's turn");
    reveal_strlit("Spectating");
    assert("Your turn"@.len() == 9);
    assert("Opponent's turn"@.len() == 15);
    assert("Your turn"@ != "Opponent's turn"@);
}

/// The viewer may move exactly in a pending game, as the host when the host
/// moves next or as the guest when the host does not; never as a spectator.
pub proof fn lemma_turn_belongs_to_the_mover(game_state: GameState, player_id: u16, next_move_host: bool)
    ensures
        my_turn(game_state, player_id, next_move_host) <==> (game_state == GameState::Pending && (
        (player_id == 0 && next_move_host) || (player_id == 1 && !next_move_host))),
{
}

/// A cell shows a cross for 1, a circle for 2 and nothing otherwise; its
/// class starts with `cell`, adds the matching `cross` or `circle` class, and
/// ends in ` clickable` exactly when it can be clicked.
pub proof fn lemma_cell_drawing(value: u8)
    ensures
        value == 1 ==> look_of(value) == ("X"@, " cross"@),
        value == 2 ==> look_of(value) == ("O"@, " circle"@),
        value != 1 && value != 2 ==> look_of(value) == (""@, ""@),
        class_of(value, true) == class_of(value, false) + " clickable"@,
        class_of(value, false) == "cell"@ + look_of(value).1,
{
    reveal_strlit("");
    assert(class_of(value, false) =~= "cell"@ + look_of(value).1);
    assert(class_of(value, true) =~= class_of(value, false) + " clickable"@);
}

} // verus!
