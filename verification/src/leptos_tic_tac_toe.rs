//! The classic tic-tac-toe rules of the Leptos front end: a delta places one
//! stone, the host plays circles and the guest crosses.
use crate::board::{
    completes_line, lemma_completes_line_is_has_line,
    board_has_line, board_is_full, board_model, cell, count, empty_board, has_line, is_full,
    lemma_count_after_filling, new_empty_board, set_cell, shape_ok, with_cell, CIRCLE, CROSS,
    EMPTY,
};
use vstd::prelude::*;

verus! {

/// One placed stone, as the host broadcasts it.
#[derive(Clone, Copy, Debug, PartialEq, Eq, Structural)]
pub struct ViewStateDelta {
    pub is_circle: bool,
    pub column: u8,
    pub row: u8,
}

/// A move request sent by a player to the host.
#[derive(Clone, Copy, Debug, PartialEq, Eq, Structural)]
pub struct StonePlacement {
    pub column: u8,
    pub row: u8,
}

/// The outcome of a game so far.
#[derive(Clone, Copy, Debug, PartialEq, Eq, Structural)]
pub enum GameState {
    Pending,
    CrossWins,
    CircleWins,
    Draw,
}

/// What every client renders: the board, whose turn it is and the outcome.
#[derive(Clone, Debug)]
pub struct ViewState {
    pub board: Vec<Vec<u8>>,
    pub next_move_host: bool,
    pub game_state: GameState,
}

/// The mathematical view of a [`ViewState`].
pub struct ViewStateModel {
    pub board: Seq<Seq<u8>>,
    pub next_move_host: bool,
    pub game_state: GameState,
}

impl View for ViewState {
    type V = ViewStateModel;

    open spec fn view(&self) -> ViewStateModel {
        ViewStateModel {
            board: board_model(self.board@),
            next_move_host: self.next_move_host,
            game_state: self.game_state,
        }
    }
}

/// The outcome that a board shows: a line of crosses wins for cross (checked
/// first), then a line of circles for circle; a full board without a line is
/// a draw.
pub open spec fn outcome(b: Seq<Seq<u8>>) -> GameState {
    if has_line(b, CROSS) {
        GameState::CrossWins
    } else if has_line(b, CIRCLE) {
        GameState::CircleWins
    } else if is_full(b) {
        GameState::Draw
    } else {
        GameState::Pending
    }
}

/// The stone value a delta writes.
pub open spec fn stone_of(is_circle: bool) -> u8 {
    if is_circle {
        CIRCLE
    } else {
        CROSS
    }
}

impl ViewStateModel {
    /// The board has three rows of three cells.
    pub open spec fn wf(self) -> bool {
        shape_ok(self.board)
    }

    /// The state at the start of a round.
    pub open spec fn initial(is_host_starting: bool) -> ViewStateModel {
        ViewStateModel {
            board: empty_board(),
            next_move_host: is_host_starting,
            game_state: GameState::Pending,
        }
    }

    /// The delta lies on the board.
    pub open spec fn fits(delta: ViewStateDelta) -> bool {
        delta.row < 3 && delta.column < 3
    }

    /// The state after applying `delta`: the stone is written, the turn passes
    /// and the outcome is recomputed from the new board.
    pub open spec fn after(self, delta: ViewStateDelta) -> ViewStateModel {
        let b = with_cell(self.board, delta.row as int, delta.column as int, stone_of(delta.is_circle));
        ViewStateModel { board: b, next_move_host: !self.next_move_host, game_state: outcome(b) }
    }

    /// `player_id` may place a stone at `mv`: it is one of the two players,
    /// it is that player's turn (the host, player 0, moves when
    /// `next_move_host`), and the target cell is empty.
    pub open spec fn legal(self, mv: StonePlacement, player_id: u16) -> bool {
        &&& player_id <= 1
        &&& (player_id == 0) == self.next_move_host
        &&& cell(self.board, mv.row as int, mv.column as int) == EMPTY
    }

    /// Checking `mv` for `player_id` reads the board only at an existing cell.
    pub open spec fn checkable(self, mv: StonePlacement, player_id: u16) -> bool {
        player_id > 1 || (player_id == 0) != self.next_move_host || (mv.row < 3 && mv.column < 3)
    }

    /// The outcome field agrees with the board.
    pub open spec fn consistent(self) -> bool {
        self.game_state == outcome(self.board)
    }

    /// Stones alternate, starting with the player named by `host_started`:
    /// the player who moves next has placed as many stones as the other when
    /// it opened the round, one fewer otherwise.
    pub open spec fn turn_balanced(self, host_started: bool) -> bool {
        let circles = count(self.board, CIRCLE);
        let crosses = count(self.board, CROSS);
        if host_started {
            circles - crosses == (if self.next_move_host {
                0int
            } else {
                1int
            })
        } else {
            crosses - circles == (if self.next_move_host {
                1int
            } else {
                0int
            })
        }
    }
}

impl ViewState {
    /// An empty board with `is_host_starting` naming who moves first.
    pub fn new(is_host_starting: bool) -> (vs: ViewState)
        ensures
            vs@ == ViewStateModel::initial(is_host_starting),
            vs@.wf(),
    {
        let board = new_empty_board();
        ViewState { board, game_state: GameState::Pending, next_move_host: is_host_starting }
    }

    /// A view state built from its parts, provided the board has three rows
    /// of three cells; `None` otherwise.
    pub fn from_parts(board: Vec<Vec<u8>>, next_move_host: bool, game_state: GameState) -> (vs:
        Option<ViewState>)
        ensures
            vs is Some <==> shape_ok(board_model(board@)),
            vs matches Some(v) ==> v@ == (ViewStateModel {
                board: board_model(board@),
                next_move_host,
                game_state,
            }),
    {
        if board.len() != 3 {
            return None;
        }
        let mut r: usize = 0;
        while r < 3
            invariant
                board@.len() == 3,
                r <= 3,
                forall|i: int| 0 <= i < r ==> (#[trigger] board@[i])@.len() == 3,
            decreases 3 - r,
        {
            if board[r].len() != 3 {
                proof {
                    assert(board_model(board@)[r as int].len() != 3);
                }
                return None;
            }
            r = r + 1;
        }
        Some(ViewState { board, next_move_host, game_state })
    }

    /// Writes the delta's stone, passes the turn and recomputes the outcome.
    pub fn apply_delta(&mut self, delta: &ViewStateDelta)
        requires
            old(self)@.wf(),
            ViewStateModel::fits(*delta),
        ensures
            final(self)@ == old(self)@.after(*delta),
            final(self)@.wf(),
    {
        let stone = if delta.is_circle {
            CIRCLE
        } else {
            CROSS
        };
        set_cell(&mut self.board, delta.row as usize, delta.column as usize, stone);
        self.next_move_host = !self.next_move_host;
        self.game_state = self.check_winning();
    }

    /// Whether `player_id` may place a stone at `move_data`.
    pub fn check_legality(&self, move_data: &StonePlacement, player_id: u16) -> (legal: bool)
        requires
            self@.wf(),
            self@.checkable(*move_data, player_id),
        ensures
            legal == self@.legal(*move_data, player_id),
    {
        if player_id > 1 {
            return false;
        }
        if (player_id == 0) != self.next_move_host {
            return false;
        }
        proof {
            assert(self@.board[move_data.row as int] == self.board@[move_data.row as int]@);
        }
        self.board[move_data.row as usize][move_data.column as usize] == EMPTY
    }

    /// Whether some line is filled with `probe`.
    fn check_for(&self, probe: u8) -> (found: bool)
        requires
            self@.wf(),
        ensures
            found == has_line(self@.board, probe),
    {
        board_has_line(&self.board, probe)
    }

    /// The outcome that the board shows.
    pub fn check_winning(&self) -> (state: GameState)
        requires
            self@.wf(),
        ensures
            state == outcome(self@.board),
    {
        if self.check_for(CROSS) {
            return GameState::CrossWins;
        }
        if self.check_for(CIRCLE) {
            return GameState::CircleWins;
        }
        if board_is_full(&self.board) {
            return GameState::Draw;
        }
        GameState::Pending
    }
}

/// Every state that [`ViewState::new`] and [`ViewState::apply_delta`] produce
/// has its outcome agree with its board.
pub proof fn lemma_outcome_follows_board(s: ViewStateModel, delta: ViewStateDelta, h: bool)
    ensures
        ViewStateModel::initial(h).consistent(),
        s.after(delta).consistent(),
{
    let e = empty_board();
    assert(cell(e, 0, 0) == EMPTY);
    assert(!has_line(e, CROSS));
    assert(!has_line(e, CIRCLE));
    assert(!is_full(e));
}

/// A legal move fills exactly the chosen empty cell with the mover's stone
/// (circle for the host, cross for the guest) and passes the turn.
pub proof fn lemma_legal_move_fills_one_empty_cell(
    s: ViewStateModel,
    mv: StonePlacement,
    player_id: u16,
)
    requires
        s.wf(),
        mv.row < 3 && mv.column < 3,
        s.legal(mv, player_id),
    ensures
        ({
            let t = s.after(ViewStateDelta { is_circle: player_id == 0, column: mv.column, row: mv.row });
            &&& t.wf()
            &&& cell(s.board, mv.row as int, mv.column as int) == EMPTY
            &&& cell(t.board, mv.row as int, mv.column as int) == (if player_id == 0 {
                CIRCLE
            } else {
                CROSS
            })
            &&& forall|r: int, c: int|
                0 <= r < 3 && 0 <= c < 3 && (r != mv.row || c != mv.column) ==> #[trigger] cell(
                    t.board,
                    r,
                    c,
                ) == cell(s.board, r, c)
            &&& t.next_move_host == !s.next_move_host
        }),
{
}

/// Legal moves keep stones alternating: a round that starts with `starter`
/// to move and continues only with legal moves keeps the stone counts in
/// step with whose turn it is.
pub proof fn lemma_legal_move_keeps_turn_balance(
    s: ViewStateModel,
    mv: StonePlacement,
    player_id: u16,
    starter: bool,
)
    requires
        s.wf(),
        mv.row < 3 && mv.column < 3,
        s.legal(mv, player_id),
        s.turn_balanced(starter),
    ensures
        s.after(ViewStateDelta { is_circle: player_id == 0, column: mv.column, row: mv.row }).turn_balanced(
            starter,
        ),
{
    let v = if player_id == 0 {
        CIRCLE
    } else {
        CROSS
    };
    lemma_count_after_filling(s.board, mv.row as int, mv.column as int, v, CIRCLE);
    lemma_count_after_filling(s.board, mv.row as int, mv.column as int, v, CROSS);
}

/// A round opens balanced for whoever starts it.
pub proof fn lemma_initial_turn_balance(starter: bool)
    ensures
        ViewStateModel::initial(starter).turn_balanced(starter),
{
    let e = empty_board();
    assert(count(e, CIRCLE) == 0);
    assert(count(e, CROSS) == 0);
}

/// A complete line decides the game, crosses before circles: a board with a
/// row, column or diagonal of crosses is a cross win; otherwise one of
/// circles is a circle win; otherwise a board with every cell taken is a
/// draw, and one with an empty cell is still pending.
pub proof fn lemma_outcome_decided_by_lines(b: Seq<Seq<u8>>)
    ensures
        completes_line(b, CROSS) ==> outcome(b) == GameState::CrossWins,
        !completes_line(b, CROSS) && completes_line(b, CIRCLE) ==> outcome(b)
            == GameState::CircleWins,
        !completes_line(b, CROSS) && !completes_line(b, CIRCLE) && (forall|r: int, c: int|
            0 <= r < 3 && 0 <= c < 3 ==> #[trigger] b[r][c] != EMPTY) ==> outcome(b)
            == GameState::Draw,
        !completes_line(b, CROSS) && !completes_line(b, CIRCLE) && (exists|r: int, c: int|
            0 <= r < 3 && 0 <= c < 3 && #[trigger] b[r][c] == EMPTY) ==> outcome(b)
            == GameState::Pending,
        outcome(b) == GameState::CrossWins <==> completes_line(b, CROSS),
{
    lemma_completes_line_is_has_line(b, CROSS);
    lemma_completes_line_is_has_line(b, CIRCLE);
    if exists|r: int, c: int| 0 <= r < 3 && 0 <= c < 3 && #[trigger] b[r][c] == EMPTY {
        let (r, c) = choose|r: int, c: int| 0 <= r < 3 && 0 <= c < 3 && #[trigger] b[r][c] == EMPTY;
        assert(cell(b, r, c) == EMPTY);
    }
}

/// A new round: all nine cells empty, the named player to move, pending.
pub proof fn lemma_initial_state(h: bool)
    ensures
        ViewStateModel::initial(h).board.len() == 3,
        forall|r: int, c: int|
            0 <= r < 3 && 0 <= c < 3 ==> ViewStateModel::initial(h).board[r].len() == 3
                && #[trigger] ViewStateModel::initial(h).board[r][c] == EMPTY,
        ViewStateModel::initial(h).next_move_host == h,
        ViewStateModel::initial(h).game_state == GameState::Pending,
{
}

/// Placing a stone on the board writes a circle (2) or a cross (1) at the
/// chosen cell, keeps every other cell, hands the turn to the other player
/// and takes the outcome from the new board.
pub proof fn lemma_placement_writes_one_cell(s: ViewStateModel, is_circle: bool, column: u8, row: u8)
    requires
        s.wf(),
        row < 3,
        column < 3,
    ensures
        ({
            let t = s.after((ViewStateDelta { is_circle, column, row }));
            &&& t.wf()
            &&& t.board[row as int][column as int] == (if is_circle {
                2u8
            } else {
                1u8
            })
            &&& forall|r: int, c: int|
                0 <= r < 3 && 0 <= c < 3 && (r != row || c != column) ==> #[trigger] t.board[r][c]
                    == s.board[r][c]
            &&& t.next_move_host == !s.next_move_host
            &&& t.game_state == outcome(t.board)
        }),
{
}

/// A move is legal exactly when it comes from the player whose turn it is
/// (the host, player 0, when the host moves next; the guest, player 1,
/// otherwise) and targets an empty cell.
pub proof fn lemma_legality(s: ViewStateModel, mv: StonePlacement, player_id: u16)
    ensures
        s.legal(mv, player_id) <==> (((player_id == 0 && s.next_move_host) || (player_id == 1
            && !s.next_move_host)) && s.board[mv.row as int][mv.column as int] == EMPTY),
{
}

} // verus!
