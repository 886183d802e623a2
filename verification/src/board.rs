//! The 3x3 game board: placement, fullness check, win detection, rendering.
//!
//! Cells are stored in a 3x3 array of [`Token`]. A player-facing
//! [`Point`] `(x, y)` is translated to storage indices by a fixed
//! transform: storage row `2 - y`, storage column `x`. "Up" is
//! increasing `y`, so the input frame is rotated relative to the raw
//! array; the diagonal checks below speak of storage-array diagonals
//! and must be read together with this transform.

use vstd::prelude::*;
use vstd::string::StringExecFns;

use crate::token::Token;
use crate::token::symbol;

verus! {

/// A two-axis coordinate addressing one board cell in the player-facing
/// orientation: `x` and `y` each in `[0, 2]`.
pub struct Point<T> {
    pub x: T,
    pub y: T,
}

/// The game board: a 3x3 grid of tokens, all `Empty` at construction,
/// mutated only through [`Board::set_token`].
pub struct Board {
    pub board: [[Token; 3]; 3],
}

impl View for Board {
    type V = Seq<Seq<Token>>;

    /// The board as a sequence of 3 storage rows of 3 tokens each.
    open spec fn view(&self) -> Seq<Seq<Token>> {
        Seq::new(3, |i: int| Seq::new(3, |j: int| self.board@[i]@[j]))
    }
}

/// The grid of a freshly constructed board: every cell `Empty`.
pub open spec fn empty_grid() -> Seq<Seq<Token>> {
    Seq::new(3, |i: int| Seq::new(3, |j: int| Token::Empty))
}

/// Storage row `r` holds `t` in all three cells.
pub open spec fn row_full_of(g: Seq<Seq<Token>>, r: int, t: Token) -> bool {
    g[r][0] == t && g[r][1] == t && g[r][2] == t
}

/// Storage column `c` holds `t` in all three cells.
pub open spec fn col_full_of(g: Seq<Seq<Token>>, c: int, t: Token) -> bool {
    g[0][c] == t && g[1][c] == t && g[2][c] == t
}

/// Some storage row is fully `t`.
pub open spec fn some_row_full(g: Seq<Seq<Token>>, t: Token) -> bool {
    exists|r: int| 0 <= r < 3 && row_full_of(g, r, t)
}

/// Some storage column is fully `t`.
pub open spec fn some_col_full(g: Seq<Seq<Token>>, t: Token) -> bool {
    exists|c: int| 0 <= c < 3 && col_full_of(g, c, t)
}

/// The main storage diagonal (top-left, center, bottom-right) is fully `t`.
pub open spec fn main_diag_full(g: Seq<Seq<Token>>, t: Token) -> bool {
    g[0][0] == t && g[1][1] == t && g[2][2] == t
}

/// The storage anti-diagonal (top-right, center, bottom-left) is fully `t`.
pub open spec fn anti_diag_full(g: Seq<Seq<Token>>, t: Token) -> bool {
    g[0][2] == t && g[1][1] == t && g[2][0] == t
}

/// Either storage diagonal is fully `t`.
pub open spec fn diag_win(g: Seq<Seq<Token>>, t: Token) -> bool {
    main_diag_full(g, t) || anti_diag_full(g, t)
}

/// `t` completes a line: a full row, a full column, or a diagonal.
pub open spec fn win(g: Seq<Seq<Token>>, t: Token) -> bool {
    some_row_full(g, t) || some_col_full(g, t) || diag_win(g, t)
}

/// The text of one rendered storage row: each cell's symbol prefixed by
/// `|`, a closing `|`, and a line feed.
pub open spec fn row_text(row: Seq<Token>) -> Seq<char> {
    seq!['|'] + symbol(row[0]) + seq!['|'] + symbol(row[1]) + seq!['|'] + symbol(row[2]) + seq![
        '|',
        '\n',
    ]
}

/// The text of the rendered grid: the three storage rows, top to
/// bottom, one line each.
pub open spec fn render_text(g: Seq<Seq<Token>>) -> Seq<char> {
    row_text(g[0]) + row_text(g[1]) + row_text(g[2])
}

/// Every cell is occupied by a player's token.
pub open spec fn full(g: Seq<Seq<Token>>) -> bool {
    forall|i: int, j: int| 0 <= i < 3 && 0 <= j < 3 ==> g[i][j] != Token::Empty
}

/// Setting all three cells of any single row to `t` yields a row win.
pub proof fn lemma_row_filled_wins(g: Seq<Seq<Token>>, r: int, t: Token)
    requires
        0 <= r < 3,
        g[r][0] == t,
        g[r][1] == t,
        g[r][2] == t,
    ensures
        some_row_full(g, t),
{
    assert(row_full_of(g, r, t));
}

/// On a board where no row is fully `t`, there is no row win for `t`.
pub proof fn lemma_no_filled_row_no_row_win(g: Seq<Seq<Token>>, t: Token)
    requires
        forall|r: int| 0 <= r < 3 ==> !(g[r][0] == t && g[r][1] == t && g[r][2] == t),
    ensures
        !some_row_full(g, t),
{
}

/// Setting all three cells of any single column to `t` yields a column
/// win.
pub proof fn lemma_col_filled_wins(g: Seq<Seq<Token>>, c: int, t: Token)
    requires
        0 <= c < 3,
        g[0][c] == t,
        g[1][c] == t,
        g[2][c] == t,
    ensures
        some_col_full(g, t),
{
    assert(col_full_of(g, c, t));
}

/// On a board where no column is fully `t`, there is no column win for
/// `t`.
pub proof fn lemma_no_filled_col_no_col_win(g: Seq<Seq<Token>>, t: Token)
    requires
        forall|c: int| 0 <= c < 3 ==> !(g[0][c] == t && g[1][c] == t && g[2][c] == t),
    ensures
        !some_col_full(g, t),
{
}

/// Both diagonals pass through the center cell, so any pattern that
/// leaves the center without `t` — a single column along an edge, for
/// one — is no diagonal win.
pub proof fn lemma_diag_win_needs_center(g: Seq<Seq<Token>>, t: Token)
    requires
        diag_win(g, t),
    ensures
        g[1][1] == t,
{
}

/// Rendering and the fullness check read the board without mutating it
/// and depend on nothing but the grid of cells, so repeating either
/// call without an intervening placement returns an identical result.
pub proof fn lemma_queries_depend_only_on_cells(a: Board, b: Board)
    requires
        a@ == b@,
    ensures
        render_text(a@) == render_text(b@),
        full(a@) == full(b@),
{
}

/// A freshly constructed board is not full.
pub proof fn lemma_fresh_board_not_full(g: Seq<Seq<Token>>)
    requires
        g == empty_grid(),
    ensures
        !full(g),
{
    assert(g[0][0] == Token::Empty);
}

impl Board {
    /// A fresh board with every cell `Empty`.
    pub fn new() -> (b: Board)
        ensures
            b@ == empty_grid(),
    {
        let b = Board { board: [[Token::Empty; 3]; 3] };
        proof {
            assert(b@ =~~= empty_grid());
        }
        b
    }

    /// Places `token` at the cell addressed by `point`, translating the
    /// player-facing coordinates to storage indices (row `2 - y`,
    /// column `x`). An already-occupied cell is silently overwritten.
    /// All other cells are unchanged.
    pub fn set_token(&mut self, point: Point<usize>, token: Token)
        requires
            point.x < 3,
            point.y < 3,
        ensures
            final(self)@[2 - point.y as int][point.x as int] == token,
            forall|i: int, j: int|
                0 <= i < 3 && 0 <= j < 3 && !(i == 2 - point.y as int && j == point.x as int)
                    ==> final(self)@[i][j] == old(self)@[i][j],
    {
        let r: usize = 2 - point.y;
        let c: usize = point.x;
        let mut row: [Token; 3] = self.board[r];
        row[c] = token;
        self.board[r] = row;
    }

    /// True exactly when every cell is occupied; scans all 9 cells and
    /// reports false as soon as an `Empty` cell is found.
    pub fn is_full(&self) -> (r: bool)
        ensures
            r == full(self@),
    {
        for i in 0..3usize
            invariant
                forall|a: int, b: int| 0 <= a < i && 0 <= b < 3 ==> self@[a][b] != Token::Empty,
        {
            for j in 0..3usize
                invariant
                    i < 3,
                    forall|a: int, b: int| 0 <= a < i && 0 <= b < 3 ==> self@[a][b] != Token::Empty,
                    forall|b: int| 0 <= b < j ==> self@[i as int][b] != Token::Empty,
            {
                if self.board[i][j] == Token::Empty {
                    assert(self@[i as int][j as int] == Token::Empty);
                    return false;
                }
            }
        }
        true
    }

    /// True exactly when some storage row (scanned top to bottom) holds
    /// `token` in all three cells.
    pub fn check_rows(&self, token: Token) -> (r: bool)
        ensures
            r == some_row_full(self@, token),
    {
        for i in 0..3usize
            invariant
                forall|a: int| 0 <= a < i ==> !row_full_of(self@, a, token),
        {
            if self.board[i][0] == token && self.board[i][1] == token && self.board[i][2] == token
            {
                assert(row_full_of(self@, i as int, token));
                return true;
            }
        }
        false
    }

    /// True exactly when some storage column (scanned left to right)
    /// holds `token` in all three cells.
    pub fn check_columns(&self, token: Token) -> (r: bool)
        ensures
            r == some_col_full(self@, token),
    {
        for c in 0..3usize
            invariant
                forall|a: int| 0 <= a < c ==> !col_full_of(self@, a, token),
        {
            if self.board[0][c] == token && self.board[1][c] == token && self.board[2][c] == token
            {
                assert(col_full_of(self@, c as int, token));
                return true;
            }
        }
        false
    }

    /// True exactly when a storage-array diagonal holds `token` in all
    /// three cells. The center cell is tested first as a fast reject:
    /// both diagonals pass through it.
    pub fn check_diagonals(&self, token: Token) -> (r: bool)
        ensures
            r == diag_win(self@, token),
    {
        if !(self.board[1][1] == token) {
            return false;
        }
        let descending_diagonal = self.board[0][2] == token && self.board[2][0] == token;
        let ascending_diagonal = self.board[0][0] == token && self.board[2][2] == token;
        descending_diagonal || ascending_diagonal
    }

    /// True exactly when `token` completes a line: a full row, a full
    /// column, or a diagonal. The checks may short-circuit, but each is
    /// a pure predicate, so the result is independent of their order.
    pub fn is_winner(&self, token: Token) -> (r: bool)
        ensures
            r == win(self@, token),
    {
        self.check_rows(token) || self.check_columns(token) || self.check_diagonals(token)
    }

    /// The text of one storage row, per [`row_text`].
    fn render_row(&self, i: usize) -> (r: String)
        requires
            i < 3,
        ensures
            r@ == row_text(self@[i as int]),
    {
        let t0 = self.board[i][0];
        let t1 = self.board[i][1];
        let t2 = self.board[i][2];
        let mut s = String::from_str("|");
        s.append(t0.value());
        s.append("|");
        s.append(t1.value());
        s.append("|");
        s.append(t2.value());
        s.append("|\n");
        proof {
            reveal_strlit("|");
            reveal_strlit("|\n");
            assert(s@ =~= row_text(self@[i as int]));
        }
        s
    }

    /// The human-readable grid, per [`render_text`]: one line per
    /// storage row, each cell shown by its display symbol. Read-only.
    pub fn render(&self) -> (r: String)
        ensures
            r@ == render_text(self@),
    {
        let mut s = self.render_row(0);
        let s1 = self.render_row(1);
        s.append(s1.as_str());
        let s2 = self.render_row(2);
        s.append(s2.as_str());
        proof {
            assert(s@ =~= render_text(self@));
        }
        s
    }
}

} // verus!
