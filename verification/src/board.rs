//! The 3×3 tic-tac-toe board shared by both game variants.
//!
//! A board is a vector of three rows of three cells. A cell holds `0` when it
//! is empty, `1` for a cross and `2` for a circle.
use vstd::prelude::*;

verus! {

/// Cell value of an empty square.
pub const EMPTY: u8 = 0;

/// Cell value of a cross (the guest's stone).
pub const CROSS: u8 = 1;

/// Cell value of a circle (the host's stone).
pub const CIRCLE: u8 = 2;

/// The mathematical board: a sequence of rows, each a sequence of cells.
pub open spec fn board_model(board: Seq<Vec<u8>>) -> Seq<Seq<u8>> {
    board.map_values(|row: Vec<u8>| row@)
}

/// A board has three rows of three cells.
pub open spec fn shape_ok(b: Seq<Seq<u8>>) -> bool {
    &&& b.len() == 3
    &&& forall|r: int| 0 <= r < 3 ==> #[trigger] b[r].len() == 3
}

/// The value at row `r`, column `c`.
pub open spec fn cell(b: Seq<Seq<u8>>, r: int, c: int) -> u8 {
    b[r][c]
}

/// Row `r` is filled with `p`.
pub open spec fn row_of(b: Seq<Seq<u8>>, r: int, p: u8) -> bool {
    cell(b, r, 0) == p && cell(b, r, 1) == p && cell(b, r, 2) == p
}

/// Column `c` is filled with `p`.
pub open spec fn column_of(b: Seq<Seq<u8>>, c: int, p: u8) -> bool {
    cell(b, 0, c) == p && cell(b, 1, c) == p && cell(b, 2, c) == p
}

/// The main diagonal (top left to bottom right) is filled with `p`.
pub open spec fn diagonal_of(b: Seq<Seq<u8>>, p: u8) -> bool {
    cell(b, 0, 0) == p && cell(b, 1, 1) == p && cell(b, 2, 2) == p
}

/// The anti-diagonal (top right to bottom left) is filled with `p`.
pub open spec fn anti_diagonal_of(b: Seq<Seq<u8>>, p: u8) -> bool {
    cell(b, 0, 2) == p && cell(b, 1, 1) == p && cell(b, 2, 0) == p
}

/// Some row, column or diagonal is filled with `p`.
pub open spec fn has_line(b: Seq<Seq<u8>>, p: u8) -> bool {
    ||| row_of(b, 0, p) || row_of(b, 1, p) || row_of(b, 2, p)
    ||| column_of(b, 0, p) || column_of(b, 1, p) || column_of(b, 2, p)
    ||| diagonal_of(b, p)
    ||| anti_diagonal_of(b, p)
}

/// Some row, column or diagonal holds `p` in all three of its cells, stated
/// cell by cell over the board's indices.
pub open spec fn completes_line(b: Seq<Seq<u8>>, p: u8) -> bool {
    ||| exists|r: int| #![trigger b[r]] 0 <= r < 3 && (forall|c: int| 0 <= c < 3 ==> #[trigger] b[r][c] == p)
    ||| exists|c: int| #![trigger b[0][c]] 0 <= c < 3 && (forall|r: int| 0 <= r < 3 ==> #[trigger] b[r][c] == p)
    ||| forall|i: int| 0 <= i < 3 ==> #[trigger] b[i][i] == p
    ||| forall|i: int| 0 <= i < 3 ==> #[trigger] b[i][2 - i] == p
}

/// The eight named lines are exactly the complete lines of the board.
pub proof fn lemma_completes_line_is_has_line(b: Seq<Seq<u8>>, p: u8)
    ensures
        completes_line(b, p) == has_line(b, p),
{
    if has_line(b, p) {
        if row_of(b, 0, p) {
            assert(forall|c: int| 0 <= c < 3 ==> #[trigger] b[0][c] == p);
        } else if row_of(b, 1, p) {
            assert(forall|c: int| 0 <= c < 3 ==> #[trigger] b[1][c] == p);
        } else if row_of(b, 2, p) {
            assert(forall|c: int| 0 <= c < 3 ==> #[trigger] b[2][c] == p);
        } else if column_of(b, 0, p) {
            assert(forall|r: int| 0 <= r < 3 ==> #[trigger] b[r][0] == p);
        } else if column_of(b, 1, p) {
            assert(forall|r: int| 0 <= r < 3 ==> #[trigger] b[r][1] == p);
        } else if column_of(b, 2, p) {
            assert(forall|r: int| 0 <= r < 3 ==> #[trigger] b[r][2] == p);
        } else if diagonal_of(b, p) {
            assert(forall|i: int| 0 <= i < 3 ==> #[trigger] b[i][i] == p);
        } else {
            assert(forall|i: int| 0 <= i < 3 ==> #[trigger] b[i][2 - i] == p);
        }
    }
    if completes_line(b, p) {
        if exists|r: int| #![trigger b[r]] 0 <= r < 3 && (forall|c: int| 0 <= c < 3 ==> #[trigger] b[r][c] == p) {
            let r = choose|r: int| #![trigger b[r]] 0 <= r < 3 && (forall|c: int| 0 <= c < 3 ==> #[trigger] b[r][c] == p);
            assert(b[r][0] == p && b[r][1] == p && b[r][2] == p);
            assert(row_of(b, r, p));
        } else if exists|c: int| #![trigger b[0][c]] 0 <= c < 3 && (forall|r: int| 0 <= r < 3 ==> #[trigger] b[r][c] == p) {
            let c = choose|c: int| #![trigger b[0][c]] 0 <= c < 3 && (forall|r: int| 0 <= r < 3 ==> #[trigger] b[r][c] == p);
            assert(b[0][c] == p && b[1][c] == p && b[2][c] == p);
            assert(column_of(b, c, p));
        } else if forall|i: int| 0 <= i < 3 ==> #[trigger] b[i][i] == p {
            assert(b[0][0] == p && b[1][1] == p && b[2][2] == p);
        } else {
            assert(b[0][2 - 0] == p && b[1][2 - 1] == p && b[2][2 - 2] == p);
        }
    }
}

/// Every cell holds a stone.
pub open spec fn is_full(b: Seq<Seq<u8>>) -> bool {
    forall|r: int, c: int| 0 <= r < 3 && 0 <= c < 3 ==> #[trigger] cell(b, r, c) != EMPTY
}

/// The board of nine empty cells.
pub open spec fn empty_board() -> Seq<Seq<u8>> {
    seq![seq![0u8, 0u8, 0u8], seq![0u8, 0u8, 0u8], seq![0u8, 0u8, 0u8]]
}

/// The board with cell (`r`, `c`) set to `v`.
pub open spec fn with_cell(b: Seq<Seq<u8>>, r: int, c: int, v: u8) -> Seq<Seq<u8>> {
    b.update(r, b[r].update(c, v))
}

/// `1` when cell (`r`, `c`) holds `p`, else `0`.
pub open spec fn holds(b: Seq<Seq<u8>>, r: int, c: int, p: u8) -> int {
    if cell(b, r, c) == p {
        1
    } else {
        0
    }
}

/// The number of cells that hold `p`.
pub open spec fn count(b: Seq<Seq<u8>>, p: u8) -> int {
    holds(b, 0, 0, p) + holds(b, 0, 1, p) + holds(b, 0, 2, p) + holds(b, 1, 0, p) + holds(
        b,
        1,
        1,
        p,
    ) + holds(b, 1, 2, p) + holds(b, 2, 0, p) + holds(b, 2, 1, p) + holds(b, 2, 2, p)
}

/// Setting an empty cell to `v` adds one stone `v` and leaves the count of
/// every other value unchanged.
pub proof fn lemma_count_after_filling(b: Seq<Seq<u8>>, r: int, c: int, v: u8, p: u8)
    requires
        shape_ok(b),
        0 <= r < 3,
        0 <= c < 3,
        cell(b, r, c) == EMPTY,
        v != EMPTY,
    ensures
        count(with_cell(b, r, c, v), p) == count(b, p) + (if p == v {
            1int
        } else if p == EMPTY {
            -1int
        } else {
            0int
        }),
{
    let nb = with_cell(b, r, c, v);
    assert forall|i: int, j: int| 0 <= i < 3 && 0 <= j < 3 implies cell(nb, i, j) == (if i == r
        && j == c {
        v
    } else {
        cell(b, i, j)
    }) by {}
}

/// Builds a fresh empty board.
pub fn new_empty_board() -> (board: Vec<Vec<u8>>)
    ensures
        board_model(board@) == empty_board(),
{
    let mut board: Vec<Vec<u8>> = Vec::with_capacity(3);
    let mut i: usize = 0;
    while i < 3
        invariant
            i <= 3,
            board@.len() == i,
            forall|r: int| 0 <= r < i ==> (#[trigger] board@[r])@ == seq![0u8, 0u8, 0u8],
        decreases 3 - i,
    {
        board.push(vec![EMPTY, EMPTY, EMPTY]);
        i = i + 1;
    }
    assert(board_model(board@) =~= empty_board());
    board
}

/// Whether some row, column or diagonal of `board` is filled with `probe`.
pub fn board_has_line(board: &Vec<Vec<u8>>, probe: u8) -> (found: bool)
    requires
        shape_ok(board_model(board@)),
    ensures
        found == has_line(board_model(board@), probe),
{
    let ghost b = board_model(board@);
    assert forall|r: int| 0 <= r < 3 implies b[r] == board@[r]@ && (#[trigger] board@[r])@.len()
        == 3 by {
        assert(b[r].len() == 3);
    }
    let mut k: usize = 0;
    while k < 3
        invariant
            k <= 3,
            b == board_model(board@),
            shape_ok(b),
            forall|r: int| 0 <= r < 3 ==> b[r] == board@[r]@,
            forall|r: int| 0 <= r < 3 ==> (#[trigger] board@[r])@.len() == 3,
            forall|j: int| 0 <= j < k ==> !row_of(b, j, probe) && !column_of(b, j, probe),
        decreases 3 - k,
    {
        let row_full = board[k][0] == probe && board[k][1] == probe && board[k][2] == probe;
        let column_full = board[0][k] == probe && board[1][k] == probe && board[2][k] == probe;
        if row_full || column_full {
            return true;
        }
        k = k + 1;
    }
    let diagonal = board[0][0] == probe && board[1][1] == probe && board[2][2] == probe;
    let anti_diagonal = board[0][2] == probe && board[1][1] == probe && board[2][0] == probe;
    diagonal || anti_diagonal
}

/// Whether every cell of `board` holds a stone.
pub fn board_is_full(board: &Vec<Vec<u8>>) -> (full: bool)
    requires
        shape_ok(board_model(board@)),
    ensures
        full == is_full(board_model(board@)),
{
    let ghost b = board_model(board@);
    assert forall|r: int| 0 <= r < 3 implies b[r] == board@[r]@ && (#[trigger] board@[r])@.len()
        == 3 by {
        assert(b[r].len() == 3);
    }
    let mut r: usize = 0;
    while r < 3
        invariant
            r <= 3,
            b == board_model(board@),
            shape_ok(b),
            forall|i: int| 0 <= i < 3 ==> b[i] == board@[i]@,
            forall|i: int| 0 <= i < 3 ==> (#[trigger] board@[i])@.len() == 3,
            forall|i: int, j: int| 0 <= i < r && 0 <= j < 3 ==> #[trigger] cell(b, i, j) != EMPTY,
        decreases 3 - r,
    {
        let mut c: usize = 0;
        while c < 3
            invariant
                r < 3,
                c <= 3,
                b == board_model(board@),
                shape_ok(b),
                forall|i: int| 0 <= i < 3 ==> b[i] == board@[i]@,
                forall|i: int| 0 <= i < 3 ==> (#[trigger] board@[i])@.len() == 3,
                forall|i: int, j: int|
                    0 <= i < r && 0 <= j < 3 ==> #[trigger] cell(b, i, j) != EMPTY,
                forall|j: int| 0 <= j < c ==> #[trigger] cell(b, r as int, j) != EMPTY,
            decreases 3 - c,
        {
            if board[r][c] == EMPTY {
                assert(cell(b, r as int, c as int) == EMPTY);
                return false;
            }
            c = c + 1;
        }
        r = r + 1;
    }
    true
}

/// The board with cell (`row`, `column`) set to `value`.
pub fn set_cell(board: &mut Vec<Vec<u8>>, row: usize, column: usize, value: u8)
    requires
        shape_ok(board_model(old(board)@)),
        row < 3,
        column < 3,
    ensures
        board_model(final(board)@) == with_cell(
            board_model(old(board)@),
            row as int,
            column as int,
            value,
        ),
{
    let ghost b = board_model(board@);
    assert(b[row as int] == board@[row as int]@);
    let mut new_row: Vec<u8> = Vec::with_capacity(3);
    let mut c: usize = 0;
    while c < 3
        invariant
            c <= 3,
            row < 3,
            column < 3,
            b == board_model(board@),
            shape_ok(b),
            b[row as int] == board@[row as int]@,
            new_row@.len() == c,
            forall|j: int| 0 <= j < c ==> #[trigger] new_row@[j] == b[row as int].update(column as int, value)[j],
        decreases 3 - c,
    {
        if c == column {
            new_row.push(value);
        } else {
            let v = board[row][c];
            new_row.push(v);
        }
        c = c + 1;
    }
    assert(new_row@ =~= b[row as int].update(column as int, value));
    board.set(row, new_row);
    assert(board_model(board@) =~= with_cell(b, row as int, column as int, value));
}

/// A copy of `board`.
pub fn copy_board(board: &Vec<Vec<u8>>) -> (copy: Vec<Vec<u8>>)
    ensures
        board_model(copy@) == board_model(board@),
{
    let mut copy: Vec<Vec<u8>> = Vec::with_capacity(board.len());
    let mut r: usize = 0;
    while r < board.len()
        invariant
            r <= board@.len(),
            copy@.len() == r,
            forall|i: int| 0 <= i < r ==> (#[trigger] copy@[i])@ == board@[i]@,
        decreases board@.len() - r,
    {
        let src = &board[r];
        let mut row: Vec<u8> = Vec::with_capacity(src.len());
        let mut c: usize = 0;
        while c < src.len()
            invariant
                c <= src@.len(),
                row@ == src@.take(c as int),
            decreases src@.len() - c,
        {
            row.push(src[c]);
            c = c + 1;
            assert(row@ =~= src@.take(c as int));
        }
        assert(src@.take(src@.len() as int) =~= src@);
        copy.push(row);
        r = r + 1;
    }
    assert(board_model(copy@) =~= board_model(board@));
    copy
}

} // verus!
