//! The tic-tac-toe rules of the Dioxus front end: besides placing stones, the
//! host may gray out one square per turn, which no player may then take.
use crate::board::{
    completes_line, lemma_completes_line_is_has_line,
    board_has_line, board_is_full, board_model, cell, count, empty_board, has_line, is_full,
    lemma_count_after_filling, new_empty_board, set_cell, shape_ok, with_cell, CIRCLE, CROSS,
    EMPTY,
};
use vstd::prelude::*;

verus! {

/// A change the host broadcasts to every client.
#[derive(Clone, Copy, Debug, PartialEq, Eq, Structural)]
pub enum ViewStateDelta {
    StonePlaced { is_circle: bool, column: u8, row: u8 },
    SquareGrayed { row: u8, col: u8 },
}

/// A move request sent by a player to the host.
#[derive(Clone, Copy, Debug, PartialEq, Eq, Structural)]
pub struct StonePlacement {
    pub column: u8,
    pub row: u8,
}

/// The outcome of a game so far.
#[derive(Clone, Copy, Debug, PartialEq, Eq, Structural)]
pub enum GameState {
    Pending,
    CrossWins,
    CircleWins,
    Draw,
}

/// What every client renders.
#[derive(Clone, Debug)]
pub struct ViewState {
    pub board: Vec<Vec<u8>>,
    pub next_move_host: bool,
    pub game_state: GameState,
    /// The square that is grayed out this turn (row, col). `None` before the
    /// first one is chosen.
    pub grayed_square: Option<(u8, u8)>,
}

/// The mathematical view of a [`ViewState`].
pub struct ViewStateModel {
    pub board: Seq<Seq<u8>>,
    pub next_move_host: bool,
    pub game_state: GameState,
    pub grayed_square: Option<(u8, u8)>,
}

impl View for ViewState {
    type V = ViewStateModel;

    open spec fn view(&self) -> ViewStateModel {
        ViewStateModel {
            board: board_model(self.board@),
            next_move_host: self.next_move_host,
            game_state: self.game_state,
            grayed_square: self.grayed_square,
        }
    }
}

/// The outcome that a board shows: a line of crosses wins for cross (checked
/// first), then a line of circles for circle; a full board without a line is
/// a draw.
pub open spec fn outcome(b: Seq<Seq<u8>>) -> GameState {
    if has_line(b, CROSS) {
        GameState::CrossWins
    } else if has_line(b, CIRCLE) {
        GameState::CircleWins
    } else if is_full(b) {
        GameState::Draw
    } else {
        GameState::Pending
    }
}

/// The stone value a placement writes.
pub open spec fn stone_of(is_circle: bool) -> u8 {
    if is_circle {
        CIRCLE
    } else {
        CROSS
    }
}

impl ViewStateModel {
    /// The board has three rows of three cells.
    pub open spec fn wf(self) -> bool {
        shape_ok(self.board)
    }

    /// The state at the start of a round.
    pub open spec fn initial(is_host_starting: bool) -> ViewStateModel {
        ViewStateModel {
            board: empty_board(),
            next_move_host: is_host_starting,
            game_state: GameState::Pending,
            grayed_square: None,
        }
    }

    /// Square (`r`, `c`) is the grayed one.
    pub open spec fn is_grayed(self, r: int, c: int) -> bool {
        self.grayed_square matches Some((gr, gc)) && gr == r && gc == c
    }

    /// Some square is empty and not grayed.
    pub open spec fn has_available_moves(self) -> bool {
        exists|r: int, c: int|
            0 <= r < 3 && 0 <= c < 3 && #[trigger] cell(self.board, r, c) == EMPTY
                && !self.is_grayed(r, c)
    }

    /// A placement lies on the board; a grayed square may lie anywhere.
    pub open spec fn fits(delta: ViewStateDelta) -> bool {
        match delta {
            ViewStateDelta::StonePlaced { column, row, .. } => row < 3 && column < 3,
            ViewStateDelta::SquareGrayed { .. } => true,
        }
    }

    /// The state after applying `delta`. A placement writes the stone, passes
    /// the turn, recomputes the outcome from the board and clears the grayed
    /// square. Graying a square records it and, if the game is pending and no
    /// empty square outside the grayed one is left, declares a draw.
    pub open spec fn after(self, delta: ViewStateDelta) -> ViewStateModel {
        match delta {
            ViewStateDelta::StonePlaced { is_circle, column, row } => {
                let b = with_cell(self.board, row as int, column as int, stone_of(is_circle));
                ViewStateModel {
                    board: b,
                    next_move_host: !self.next_move_host,
                    game_state: outcome(b),
                    grayed_square: None,
                }
            },
            ViewStateDelta::SquareGrayed { row, col } => {
                let g = ViewStateModel { grayed_square: Some((row, col)), ..self };
                if self.game_state == GameState::Pending && !g.has_available_moves() {
                    ViewStateModel { game_state: GameState::Draw, ..g }
                } else {
                    g
                }
            },
        }
    }

    /// `player_id` may place a stone at `mv`: it is one of the two players,
    /// it is that player's turn (the host, player 0, moves when
    /// `next_move_host`), the target cell is empty and it is not grayed.
    pub open spec fn legal(self, mv: StonePlacement, player_id: u16) -> bool {
        &&& player_id <= 1
        &&& (player_id == 0) == self.next_move_host
        &&& cell(self.board, mv.row as int, mv.column as int) == EMPTY
        &&& !self.is_grayed(mv.row as int, mv.column as int)
    }

    /// Checking `mv` for `player_id` reads the board only at an existing cell.
    pub open spec fn checkable(self, mv: StonePlacement, player_id: u16) -> bool {
        player_id > 1 || (player_id == 0) != self.next_move_host || (mv.row < 3 && mv.column < 3)
    }

    /// Stones alternate, starting with the player named by `host_started`.
    pub open spec fn turn_balanced(self, host_started: bool) -> bool {
        let circles = count(self.board, CIRCLE);
        let crosses = count(self.board, CROSS);
        if host_started {
            circles - crosses == (if self.next_move_host {
                0int
            } else {
                1int
            })
        } else {
            crosses - circles == (if self.next_move_host {
                1int
            } else {
                0int
            })
        }
    }
}

impl ViewState {
    /// An empty board with no grayed square; `is_host_starting` names who
    /// moves first.
    pub fn new(is_host_starting: bool) -> (vs: ViewState)
        ensures
            vs@ == ViewStateModel::initial(is_host_starting),
            vs@.wf(),
    {
        let board = new_empty_board();
        ViewState {
            board,
            game_state: GameState::Pending,
            next_move_host: is_host_starting,
            grayed_square: None,
        }
    }

    /// A view state built from its parts, provided the board has three rows
    /// of three cells; `None` otherwise.
    pub fn from_parts(
        board: Vec<Vec<u8>>,
        next_move_host: bool,
        game_state: GameState,
        grayed_square: Option<(u8, u8)>,
    ) -> (vs: Option<ViewState>)
        ensures
            vs is Some <==> shape_ok(board_model(board@)),
            vs matches Some(v) ==> v@ == (ViewStateModel {
                board: board_model(board@),
                next_move_host,
                game_state,
                grayed_square,
            }),
    {
        if board.len() != 3 {
            return None;
        }
        let mut r: usize = 0;
        while r < 3
            invariant
                board@.len() == 3,
                r <= 3,
                forall|i: int| 0 <= i < r ==> (#[trigger] board@[i])@.len() == 3,
            decreases 3 - r,
        {
            if board[r].len() != 3 {
                proof {
                    assert(board_model(board@)[r as int].len() != 3);
                }
                return None;
            }
            r = r + 1;
        }
        Some(ViewState { board, next_move_host, game_state, grayed_square })
    }

    /// Whether (`row`, `col`) is the grayed square.
    fn is_grayed(&self, row: u8, col: u8) -> (grayed: bool)
        ensures
            grayed == self@.is_grayed(row as int, col as int),
    {
        match self.grayed_square {
            Some((r, c)) => r == row && c == col,
            None => false,
        }
    }

    /// Applies a broadcast change; see [`ViewStateModel::after`].
    pub fn apply_delta(&mut self, delta: &ViewStateDelta)
        requires
            old(self)@.wf(),
            ViewStateModel::fits(*delta),
        ensures
            final(self)@ == old(self)@.after(*delta),
            final(self)@.wf(),
    {
        match delta {
            ViewStateDelta::StonePlaced { is_circle, column, row } => {
                let stone = if *is_circle {
                    CIRCLE
                } else {
                    CROSS
                };
                set_cell(&mut self.board, *row as usize, *column as usize, stone);
                self.next_move_host = !self.next_move_host;
                self.game_state = self.check_winning();
                self.grayed_square = None;
            },
            ViewStateDelta::SquareGrayed { row, col } => {
                self.grayed_square = Some((*row, *col));
                if self.game_state == GameState::Pending && !self.has_available_moves() {
                    self.game_state = GameState::Draw;
                }
            },
        }
    }

    /// Whether `player_id` may place a stone at `move_data`.
    pub fn check_legality(&self, move_data: &StonePlacement, player_id: u16) -> (legal: bool)
        requires
            self@.wf(),
            self@.checkable(*move_data, player_id),
        ensures
            legal == self@.legal(*move_data, player_id),
    {
        if player_id > 1 {
            return false;
        }
        if (player_id == 0) != self.next_move_host {
            return false;
        }
        proof {
            assert(self@.board[move_data.row as int] == self.board@[move_data.row as int]@);
        }
        if self.board[move_data.row as usize][move_data.column as usize] != EMPTY {
            return false;
        }
        !self.is_grayed(move_data.row, move_data.column)
    }

    /// Returns true if there is at least one cell that is both empty and not
    /// grayed.
    pub fn has_available_moves(&self) -> (available: bool)
        requires
            self@.wf(),
        ensures
            available == self@.has_available_moves(),
    {
        let ghost m = self@;
        assert forall|i: int| 0 <= i < 3 implies m.board[i] == self.board@[i]@ && (
        #[trigger] self.board@[i])@.len() == 3 by {
            assert(m.board[i].len() == 3);
        }
        let mut row: usize = 0;
        while row < 3
            invariant
                row <= 3,
                m == self@,
                m.wf(),
                forall|i: int| 0 <= i < 3 ==> m.board[i] == self.board@[i]@,
                forall|i: int| 0 <= i < 3 ==> (#[trigger] self.board@[i])@.len() == 3,
                forall|i: int, j: int|
                    0 <= i < row && 0 <= j < 3 ==> !(#[trigger] cell(m.board, i, j) == EMPTY
                        && !m.is_grayed(i, j)),
            decreases 3 - row,
        {
            let mut col: usize = 0;
            while col < 3
                invariant
                    row < 3,
                    col <= 3,
                    m == self@,
                    m.wf(),
                    forall|i: int| 0 <= i < 3 ==> m.board[i] == self.board@[i]@,
                    forall|i: int| 0 <= i < 3 ==> (#[trigger] self.board@[i])@.len() == 3,
                    forall|i: int, j: int|
                        0 <= i < row && 0 <= j < 3 ==> !(#[trigger] cell(m.board, i, j) == EMPTY
                            && !m.is_grayed(i, j)),
                    forall|j: int|
                        0 <= j < col ==> !(#[trigger] cell(m.board, row as int, j) == EMPTY
                            && !m.is_grayed(row as int, j)),
                decreases 3 - col,
            {
                if self.board[row][col] == EMPTY && !self.is_grayed(row as u8, col as u8) {
                    assert(cell(m.board, row as int, col as int) == EMPTY);
                    return true;
                }
                col = col + 1;
            }
            row = row + 1;
        }
        assert(!m.has_available_moves());
        false
    }

    /// Whether some line is filled with `probe`.
    fn check_for(&self, probe: u8) -> (found: bool)
        requires
            self@.wf(),
        ensures
            found == has_line(self@.board, probe),
    {
        board_has_line(&self.board, probe)
    }

    /// The outcome that the board shows.
    pub fn check_winning(&self) -> (state: GameState)
        requires
            self@.wf(),
        ensures
            state == outcome(self@.board),
    {
        if self.check_for(CROSS) {
            return GameState::CrossWins;
        }
        if self.check_for(CIRCLE) {
            return GameState::CircleWins;
        }
        if board_is_full(&self.board) {
            return GameState::Draw;
        }
        GameState::Pending
    }
}

/// A placement always leaves the outcome agreeing with the board, and a
/// fresh round starts pending on an empty board.
pub proof fn lemma_placement_outcome_follows_board(
    s: ViewStateModel,
    is_circle: bool,
    column: u8,
    row: u8,
    h: bool,
)
    ensures
        ({
            let t = s.after(ViewStateDelta::StonePlaced { is_circle, column, row });
            t.game_state == outcome(t.board) && t.grayed_square is None
        }),
        outcome(ViewStateModel::initial(h).board) == GameState::Pending,
{
    let e = empty_board();
    assert(cell(e, 0, 0) == EMPTY);
    assert(!has_line(e, CROSS));
    assert(!has_line(e, CIRCLE));
    assert(!is_full(e));
}

/// Graying a square never touches the board or the turn, and never ends a
/// game in anything but a draw.
pub proof fn lemma_graying_keeps_board(s: ViewStateModel, row: u8, col: u8)
    ensures
        ({
            let t = s.after(ViewStateDelta::SquareGrayed { row, col });
            &&& t.board == s.board
            &&& t.next_move_host == s.next_move_host
            &&& t.grayed_square == Some((row, col))
            &&& (t.game_state == s.game_state || t.game_state == GameState::Draw)
        }),
{
}

/// A legal move fills exactly the chosen empty, non-grayed cell with the
/// mover's stone, passes the turn and clears the grayed square.
pub proof fn lemma_legal_move_fills_one_empty_cell(
    s: ViewStateModel,
    mv: StonePlacement,
    player_id: u16,
)
    requires
        s.wf(),
        mv.row < 3 && mv.column < 3,
        s.legal(mv, player_id),
    ensures
        ({
            let t = s.after(
                ViewStateDelta::StonePlaced {
                    is_circle: player_id == 0,
                    column: mv.column,
                    row: mv.row,
                },
            );
            &&& t.wf()
            &&& cell(s.board, mv.row as int, mv.column as int) == EMPTY
            &&& !s.is_grayed(mv.row as int, mv.column as int)
            &&& cell(t.board, mv.row as int, mv.column as int) == (if player_id == 0 {
                CIRCLE
            } else {
                CROSS
            })
            &&& forall|r: int, c: int|
                0 <= r < 3 && 0 <= c < 3 && (r != mv.row || c != mv.column) ==> #[trigger] cell(
                    t.board,
                    r,
                    c,
                ) == cell(s.board, r, c)
            &&& t.next_move_host == !s.next_move_host
            &&& t.grayed_square is None
        }),
{
}

/// Legal moves keep stones alternating with the turn.
pub proof fn lemma_legal_move_keeps_turn_balance(
    s: ViewStateModel,
    mv: StonePlacement,
    player_id: u16,
    starter: bool,
)
    requires
        s.wf(),
        mv.row < 3 && mv.column < 3,
        s.legal(mv, player_id),
        s.turn_balanced(starter),
    ensures
        s.after(
            ViewStateDelta::StonePlaced { is_circle: player_id == 0, column: mv.column, row: mv.row },
        ).turn_balanced(starter),
{
    let v = if player_id == 0 {
        CIRCLE
    } else {
        CROSS
    };
    lemma_count_after_filling(s.board, mv.row as int, mv.column as int, v, CIRCLE);
    lemma_count_after_filling(s.board, mv.row as int, mv.column as int, v, CROSS);
}

/// A round opens balanced for whoever starts it.
pub proof fn lemma_initial_turn_balance(starter: bool)
    ensures
        ViewStateModel::initial(starter).turn_balanced(starter),
{
    let e = empty_board();
    assert(count(e, CIRCLE) == 0);
    assert(count(e, CROSS) == 0);
}

/// A complete line decides the game, crosses before circles: a board with a
/// row, column or diagonal of crosses is a cross win; otherwise one of
/// circles is a circle win; otherwise a board with every cell taken is a
/// draw, and one with an empty cell is still pending.
pub proof fn lemma_outcome_decided_by_lines(b: Seq<Seq<u8>>)
    ensures
        completes_line(b, CROSS) ==> outcome(b) == GameState::CrossWins,
        !completes_line(b, CROSS) && completes_line(b, CIRCLE) ==> outcome(b)
            == GameState::CircleWins,
        !completes_line(b, CROSS) && !completes_line(b, CIRCLE) && (forall|r: int, c: int|
            0 <= r < 3 && 0 <= c < 3 ==> #[trigger] b[r][c] != EMPTY) ==> outcome(b)
            == GameState::Draw,
        !completes_line(b, CROSS) && !completes_line(b, CIRCLE) && (exists|r: int, c: int|
            0 <= r < 3 && 0 <= c < 3 && #[trigger] b[r][c] == EMPTY) ==> outcome(b)
            == GameState::Pending,
        outcome(b) == GameState::CrossWins <==> completes_line(b, CROSS),
{
    lemma_completes_line_is_has_line(b, CROSS);
    lemma_completes_line_is_has_line(b, CIRCLE);
    if exists|r: int, c: int| 0 <= r < 3 && 0 <= c < 3 && #[trigger] b[r][c] == EMPTY {
        let (r, c) = choose|r: int, c: int| 0 <= r < 3 && 0 <= c < 3 && #[trigger] b[r][c] == EMPTY;
        assert(cell(b, r, c) == EMPTY);
    }
}

/// A new round: all nine cells empty, the named player to move, pending.
pub proof fn lemma_initial_state(h: bool)
    ensures
        ViewStateModel::initial(h).board.len() == 3,
        forall|r: int, c: int|
            0 <= r < 3 && 0 <= c < 3 ==> ViewStateModel::initial(h).board[r].len() == 3
                && #[trigger] ViewStateModel::initial(h).board[r][c] == EMPTY,
        ViewStateModel::initial(h).next_move_host == h,
        ViewStateModel::initial(h).game_state == GameState::Pending,
        ViewStateModel::initial(h).grayed_square is None,
{
}

/// Placing a stone on the board writes a circle (2) or a cross (1) at the
/// chosen cell, keeps every other cell, hands the turn to the other player
/// and takes the outcome from the new board.
pub proof fn lemma_placement_writes_one_cell(s: ViewStateModel, is_circle: bool, column: u8, row: u8)
    requires
        s.wf(),
        row < 3,
        column < 3,
    ensures
        ({
            let t = s.after((ViewStateDelta::StonePlaced { is_circle, column, row }));
            &&& t.wf()
            &&& t.board[row as int][column as int] == (if is_circle {
                2u8
            } else {
                1u8
            })
            &&& forall|r: int, c: int|
                0 <= r < 3 && 0 <= c < 3 && (r != row || c != column) ==> #[trigger] t.board[r][c]
                    == s.board[r][c]
            &&& t.next_move_host == !s.next_move_host
            &&& t.game_state == outcome(t.board)
            &&& t.grayed_square is None
        }),
{
}

/// A move is legal exactly when it comes from the player whose turn it is
/// (the host, player 0, when the host moves next; the guest, player 1,
/// otherwise) and targets an empty cell that is not grayed.
pub proof fn lemma_legality(s: ViewStateModel, mv: StonePlacement, player_id: u16)
    ensures
        s.legal(mv, player_id) <==> (((player_id == 0 && s.next_move_host) || (player_id == 1
            && !s.next_move_host)) && s.board[mv.row as int][mv.column as int] == EMPTY && s.grayed_square != Some((mv.row, mv.column))),
{
}

/// There is an available move exactly when some cell is empty and is not
/// the grayed one.
pub proof fn lemma_available_moves(s: ViewStateModel)
    ensures
        s.has_available_moves() <==> exists|r: int, c: int|
            0 <= r < 3 && 0 <= c < 3 && #[trigger] s.board[r][c] == EMPTY && s.grayed_square
                != Some((r as u8, c as u8)),
{
    if s.has_available_moves() {
        let (r, c) = choose|r: int, c: int|
            0 <= r < 3 && 0 <= c < 3 && #[trigger] cell(s.board, r, c) == EMPTY && !s.is_grayed(r, c);
        assert(s.board[r][c] == EMPTY);
    }
    if exists|r: int, c: int|
        0 <= r < 3 && 0 <= c < 3 && #[trigger] s.board[r][c] == EMPTY && s.grayed_square != Some(
            (r as u8, c as u8),
        ) {
        let (r, c) = choose|r: int, c: int|
            0 <= r < 3 && 0 <= c < 3 && #[trigger] s.board[r][c] == EMPTY && s.grayed_square
                != Some((r as u8, c as u8));
        assert(cell(s.board, r, c) == EMPTY);
    }
}

/// Graying a square records it and keeps board and turn; it ends a pending
/// game in a draw exactly when every cell other than the grayed one is
/// taken, and otherwise leaves the outcome alone.
pub proof fn lemma_graying(s: ViewStateModel, row: u8, col: u8)
    requires
        row < 3,
        col < 3,
    ensures
        ({
            let t = s.after((ViewStateDelta::SquareGrayed { row, col }));
            let open_cell = exists|r: int, c: int|
                0 <= r < 3 && 0 <= c < 3 && #[trigger] s.board[r][c] == EMPTY && (r != row || c
                    != col);
            &&& t.grayed_square == Some((row, col))
            &&& t.board == s.board
            &&& t.next_move_host == s.next_move_host
            &&& (s.game_state == GameState::Pending && !open_cell ==> t.game_state == GameState::Draw)
            &&& (s.game_state != GameState::Pending || open_cell ==> t.game_state == s.game_state)
        }),
{
    let g = ViewStateModel { grayed_square: Some((row, col)), ..s };
    lemma_available_moves(g);
    let open_cell = exists|r: int, c: int|
        0 <= r < 3 && 0 <= c < 3 && #[trigger] s.board[r][c] == EMPTY && (r != row || c != col);
    if open_cell {
        let (r, c) = choose|r: int, c: int|
            0 <= r < 3 && 0 <= c < 3 && #[trigger] s.board[r][c] == EMPTY && (r != row || c != col);
        assert(g.board[r][c] == EMPTY && g.grayed_square != Some((r as u8, c as u8)));
    }
    if g.has_available_moves() {
        let (r, c) = choose|r: int, c: int|
            0 <= r < 3 && 0 <= c < 3 && #[trigger] g.board[r][c] == EMPTY && g.grayed_square
                != Some((r as u8, c as u8));
        assert(s.board[r][c] == EMPTY && (r != row || c != col));
    }
}

} // verus!
