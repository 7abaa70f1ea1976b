//! The game controller: the board state (a mapping from positions to the
//! player occupying them), the cursor, and the state machine that drives one
//! match. The board is stored row by row as a vector of `side * side`
//! optional marks; a position `(x, y)` lives at index `y * side + x`, and a
//! `None` entry is a free cell.

use vstd::prelude::*;

use crate::ai::AI;
use crate::grid::Grid;
use crate::{Coordinates, GameError, InputEvent, Player, Side};

verus! {

/// The cell of `cells` holding position `(x, y)` on a board of the given side.
pub open spec fn spec_cell(cells: Seq<Option<Player>>, side: Side, x: int, y: int) -> Option<
    Player,
> {
    cells[y * side.0 + x]
}

/// Whether both axes of `c` lie in [0, side).
pub open spec fn spec_in_bounds(side: Side, c: Coordinates) -> bool {
    0 <= c.x < side.0 && 0 <= c.y < side.0
}

/// How many of the first `n` cells are marked.
pub open spec fn num_marked(cells: Seq<Option<Player>>, n: int) -> nat
    decreases n,
{
    if n <= 0 {
        0
    } else {
        num_marked(cells, n - 1) + (if cells[n - 1] is Some {
            1nat
        } else {
            0nat
        })
    }
}

/// At most `n` of the first `n` cells can be marked.
proof fn lemma_num_marked_le(cells: Seq<Option<Player>>, n: int)
    requires
        n >= 0,
    ensures
        num_marked(cells, n) <= n,
    decreases n,
{
    if n > 0 {
        lemma_num_marked_le(cells, n - 1);
    }
}

/// A prefix of free cells holds no marks.
proof fn lemma_num_marked_all_none(cells: Seq<Option<Player>>, n: int)
    requires
        n >= 0,
        forall|i: int| 0 <= i < n ==> cells[i] is None,
    ensures
        num_marked(cells, n) == 0,
    decreases n,
{
    if n > 0 {
        lemma_num_marked_all_none(cells, n - 1);
    }
}

/// Marking one free cell raises the count of marks in a prefix by one
/// exactly when the cell lies in that prefix.
proof fn lemma_num_marked_update(cells: Seq<Option<Player>>, j: int, p: Player, n: int)
    requires
        0 <= j < cells.len(),
        cells[j] is None,
        0 <= n <= cells.len(),
    ensures
        num_marked(cells.update(j, Some(p)), n) == num_marked(cells, n) + (if j < n {
            1nat
        } else {
            0nat
        }),
    decreases n,
{
    if n > 0 {
        lemma_num_marked_update(cells, j, p, n - 1);
    }
}

/// The cell count `side * side`, which fits in a `usize` because a
/// well-formed side is at most `i16::MAX`.
pub(crate) fn total_cells(side: &Side) -> (n: usize)
    requires
        side.wf(),
    ensures
        n == side.0 * side.0,
{
    proof {
        assert((side.0 as int) * (side.0 as int) <= 32767 * 32767) by (nonlinear_arith)
            requires
                1 <= side.0 <= 32767,
        ;
    }
    (side.0 as usize) * (side.0 as usize)
}

/// Reads the cell at `(x, y)` out of a row-by-row board vector.
pub(crate) fn cell_of(cells: &Vec<Option<Player>>, side: &Side, x: u16, y: u16) -> (c: Option<
    Player,
>)
    requires
        side.wf(),
        cells@.len() == side.0 * side.0,
        x < side.0,
        y < side.0,
    ensures
        c == spec_cell(cells@, *side, x as int, y as int),
{
    proof {
        assert((y as int) * (side.0 as int) + (x as int) < (side.0 as int) * (side.0 as int)
            && (side.0 as int) * (side.0 as int) <= 32767 * 32767) by (nonlinear_arith)
            requires
                x < side.0,
                y < side.0,
                side.0 <= 32767,
        ;
    }
    cells[(y as usize) * (side.0 as usize) + (x as usize)]
}

/// Column `x` of `cells` is fully held by `p`.
pub open spec fn spec_col_complete(cells: Seq<Option<Player>>, side: Side, x: int, p: Player) -> bool {
    forall|y: int| 0 <= y < side.0 ==> spec_cell(cells, side, x, y) == Some(p)
}

/// Row `y` of `cells` is fully held by `p`.
pub open spec fn spec_row_complete(cells: Seq<Option<Player>>, side: Side, y: int, p: Player) -> bool {
    forall|x: int| 0 <= x < side.0 ==> spec_cell(cells, side, x, y) == Some(p)
}

/// The top-left to bottom-right diagonal of `cells` is fully held by `p`.
pub open spec fn spec_main_diag_complete(cells: Seq<Option<Player>>, side: Side, p: Player) -> bool {
    forall|z: int| 0 <= z < side.0 ==> spec_cell(cells, side, z, z) == Some(p)
}

/// The bottom-left to top-right diagonal of `cells`, the cells
/// `(x, side - 1 - x)`, is fully held by `p`.
pub open spec fn spec_anti_diag_complete(cells: Seq<Option<Player>>, side: Side, p: Player) -> bool {
    forall|x: int|
        0 <= x < side.0 ==> #[trigger] spec_cell(cells, side, x, side.0 - 1 - x) == Some(p)
}

/// `p` has won on `cells`: some line family — a column, a row, or one of
/// the two diagonals — is completely held by `p`.
pub open spec fn spec_has_won(cells: Seq<Option<Player>>, side: Side, p: Player) -> bool {
    ||| exists|x: int| 0 <= x < side.0 && spec_col_complete(cells, side, x, p)
    ||| exists|y: int| 0 <= y < side.0 && spec_row_complete(cells, side, y, p)
    ||| spec_main_diag_complete(cells, side, p)
    ||| spec_anti_diag_complete(cells, side, p)
}

/// Law: a player who fully holds the main diagonal has won, whatever else
/// is on the board.
pub proof fn lemma_main_diag_wins(cells: Seq<Option<Player>>, side: Side, p: Player)
    requires
        spec_main_diag_complete(cells, side, p),
    ensures
        spec_has_won(cells, side, p),
{
}

/// Law: a player who fully holds the bottom-left to top-right diagonal has
/// won, whatever else is on the board.
pub proof fn lemma_anti_diag_wins(cells: Seq<Option<Player>>, side: Side, p: Player)
    requires
        spec_anti_diag_complete(cells, side, p),
    ensures
        spec_has_won(cells, side, p),
{
}

/// One axis of the cursor after a movement, clamped back into [0, side).
pub open spec fn clamp_axis(v: int, side: Side) -> int {
    if v >= side.0 {
        side.0 - 1
    } else if v < 0 {
        0
    } else {
        v
    }
}

/// Law: clamping lands every value inside [0, side).
pub proof fn lemma_clamp_axis_in_range(v: int, side: Side)
    requires
        side.wf(),
    ensures
        0 <= clamp_axis(v, side) < side.0,
{
}

/// One match of tic-tac-toe: the board, the human's cursor, and the
/// strategy the computer replies with.
#[derive(Debug, PartialEq)]
pub struct TicTacToe {
    pub cursor: Coordinates,
    pub grid: Grid,
    pub ai_algo: AI,
    pub marked_positions: Vec<Option<Player>>,
    pub marked_count: usize,
}

impl TicTacToe {
    /// The board invariant: a well-formed side, one cell per board position,
    /// and a mark counter that agrees with the stored marks.
    pub open spec fn wf(self) -> bool {
        &&& self.grid.side.wf()
        &&& self.marked_positions@.len() == self.grid.side.0 * self.grid.side.0
        &&& self.marked_count == num_marked(
            self.marked_positions@,
            self.grid.side.0 * self.grid.side.0,
        )
    }

    /// The cursor invariant: both axes clamped into [0, side).
    pub open spec fn cursor_in_bounds(self) -> bool {
        spec_in_bounds(self.grid.side, self.cursor)
    }

    /// The mark at board position `(x, y)`, or `None` for a free cell.
    pub open spec fn cell(self, x: int, y: int) -> Option<Player> {
        spec_cell(self.marked_positions@, self.grid.side, x, y)
    }

    /// Column `x` is fully held by `p`: every cell with that x is `p`'s.
    pub open spec fn col_complete(self, x: int, p: Player) -> bool {
        spec_col_complete(self.marked_positions@, self.grid.side, x, p)
    }

    /// Row `y` is fully held by `p`: every cell with that y is `p`'s.
    pub open spec fn row_complete(self, y: int, p: Player) -> bool {
        spec_row_complete(self.marked_positions@, self.grid.side, y, p)
    }

    /// The top-left to bottom-right diagonal is fully held by `p`.
    pub open spec fn main_diag_complete(self, p: Player) -> bool {
        spec_main_diag_complete(self.marked_positions@, self.grid.side, p)
    }

    /// The bottom-left to top-right diagonal, the cells `(x, side - 1 - x)`,
    /// is fully held by `p`.
    pub open spec fn anti_diag_complete(self, p: Player) -> bool {
        spec_anti_diag_complete(self.marked_positions@, self.grid.side, p)
    }

    /// `p` has won: some line family — a column, a row, or one of the two
    /// diagonals — is completely held by `p`.
    pub open spec fn has_won(self, p: Player) -> bool {
        spec_has_won(self.marked_positions@, self.grid.side, p)
    }

    /// A fresh match: an empty board and the cursor at the origin.
    pub fn from(grid: Grid, ai_algo: AI) -> (game: Self)
        requires
            grid.side.wf(),
        ensures
            game.wf(),
            game.cursor_in_bounds(),
            game.cursor == (Coordinates { x: 0, y: 0 }),
            game.grid == grid,
            game.ai_algo == ai_algo,
            forall|i: int| 0 <= i < game.marked_positions@.len() ==> game.marked_positions@[i] is None,
            game.marked_count == 0,
    {
        let total = total_cells(&grid.side);
        let mut marked_positions: Vec<Option<Player>> = Vec::with_capacity(total);
        let mut i: usize = 0;
        while i < total
            invariant
                i <= total,
                marked_positions@.len() == i,
                forall|k: int| 0 <= k < i ==> marked_positions@[k] is None,
            decreases total - i,
        {
            marked_positions.push(None);
            i += 1;
        }
        proof {
            lemma_num_marked_all_none(marked_positions@, total as int);
        }
        Self {
            cursor: Coordinates { x: 0, y: 0 },
            grid: grid,
            ai_algo: ai_algo,
            marked_positions: marked_positions,
            marked_count: 0,
        }
    }

    /// Places the cursor on the given board position.
    pub fn set_cursor_to_grid(&mut self, position: &Coordinates)
        requires
            spec_in_bounds(old(self).grid.side, *position),
        ensures
            final(self).cursor == *position,
            final(self).grid == old(self).grid,
            final(self).ai_algo == old(self).ai_algo,
            final(self).marked_positions == old(self).marked_positions,
            final(self).marked_count == old(self).marked_count,
            final(self).cursor_in_bounds(),
    {
        self.cursor = position.clone();
    }

    /// What placing a mark promises. On success the cursor's cell was free
    /// and in bounds, and the board gains exactly that one entry; otherwise
    /// the state is unchanged and the error tells exactly why: the position
    /// lay outside the board, or it was already marked.
    pub open spec fn mark_post(pre: Self, post: Self, player: Player, r: Result<
        (),
        GameError,
    >) -> bool {
        &&& post.wf()
        &&& post.grid == pre.grid
        &&& post.ai_algo == pre.ai_algo
        &&& post.cursor == pre.cursor
        &&& match r {
            Ok(_) => {
                &&& pre.cursor_in_bounds()
                &&& pre.cell(pre.cursor.x as int, pre.cursor.y as int) is None
                &&& post.marked_positions@ == pre.marked_positions@.update(
                    pre.cursor.y * pre.grid.side.0 + pre.cursor.x,
                    Some(player),
                )
                &&& post.marked_count == pre.marked_count + 1
            },
            Err(e) => {
                &&& post == pre
                &&& (e is OutOfBounds || e is AlreadyMarked)
                &&& (e is OutOfBounds <==> !pre.cursor_in_bounds())
                &&& (e is AlreadyMarked <==> pre.cursor_in_bounds() && pre.cell(
                    pre.cursor.x as int,
                    pre.cursor.y as int,
                ) is Some)
            },
        }
    }

    /// Places `player`'s mark on the cell under the cursor. Marking an
    /// occupied cell fails and changes nothing; a position outside the
    /// board (unreachable under cursor clamping, but checked defensively)
    /// is a domain error.
    fn mark(&mut self, player: Player) -> (r: Result<(), GameError>)
        requires
            old(self).wf(),
        ensures
            Self::mark_post(*old(self), *final(self), player, r),
    {
        let x = self.cursor.x;
        let y = self.cursor.y;
        let side = self.grid.side.0;
        if x < 0 || y < 0 || x >= side as i16 || y >= side as i16 {
            return Err(GameError::OutOfBounds);
        }
        let existing = cell_of(&self.marked_positions, &self.grid.side, x as u16, y as u16);
        if existing.is_some() {
            return Err(GameError::AlreadyMarked);
        }
        proof {
            assert((y as int) * (side as int) + (x as int) < (side as int) * (side as int)
                && (side as int) * (side as int) <= 32767 * 32767) by (nonlinear_arith)
                requires
                    0 <= x < side,
                    0 <= y < side,
                    side <= 32767,
            ;
            lemma_num_marked_le(
                self.marked_positions@,
                (side as int) * (side as int),
            );
        }
        let index = (y as usize) * (side as usize) + (x as usize);
        self.marked_positions.set(index, Some(player));
        self.marked_count = self.marked_count + 1;
        proof {
            lemma_num_marked_update(
                old(self).marked_positions@,
                index as int,
                player,
                (side as int) * (side as int),
            );
        }
        Ok(())
    }

    /// Places the human player's mark on the cell under the cursor.
    pub fn mark_cross(&mut self) -> (r: Result<(), GameError>)
        requires
            old(self).wf(),
        ensures
            Self::mark_post(*old(self), *final(self), Player::Cross, r),
    {
        self.mark(Player::Cross)
    }

    /// Places the computer player's mark on the cell under the cursor.
    pub fn mark_zero(&mut self) -> (r: Result<(), GameError>)
        requires
            old(self).wf(),
        ensures
            Self::mark_post(*old(self), *final(self), Player::Zero, r),
    {
        self.mark(Player::Zero)
    }

    /// Whether any cell is still free: exactly when fewer than
    /// `side * side` marks have been placed.
    pub fn grid_has_empty_boxes(&self) -> (r: bool)
        requires
            self.wf(),
        ensures
            r <==> num_marked(self.marked_positions@, self.grid.side.0 * self.grid.side.0)
                != self.grid.side.0 * self.grid.side.0,
    {
        let total = total_cells(&self.grid.side);
        self.marked_count != total
    }

    /// Whether column `x` is completely held by `player`.
    fn check_column(&self, x: u16, player: Player) -> (b: bool)
        requires
            self.wf(),
            x < self.grid.side.0,
        ensures
            b == spec_col_complete(self.marked_positions@, self.grid.side, x as int, player),
    {
        let s = self.grid.side.0;
        let mut y: u16 = 0;
        while y < s
            invariant
                self.wf(),
                s == self.grid.side.0,
                x < s,
                y <= s,
                forall|yi: int|
                    0 <= yi < y ==> spec_cell(self.marked_positions@, self.grid.side, x as int, yi)
                        == Some(player),
            decreases s - y,
        {
            let held = match cell_of(&self.marked_positions, &self.grid.side, x, y) {
                Some(q) => q == player,
                None => false,
            };
            if !held {
                return false;
            }
            y += 1;
        }
        true
    }

    /// Whether row `y` is completely held by `player`.
    fn check_row(&self, y: u16, player: Player) -> (b: bool)
        requires
            self.wf(),
            y < self.grid.side.0,
        ensures
            b == spec_row_complete(self.marked_positions@, self.grid.side, y as int, player),
    {
        let s = self.grid.side.0;
        let mut x: u16 = 0;
        while x < s
            invariant
                self.wf(),
                s == self.grid.side.0,
                y < s,
                x <= s,
                forall|xi: int|
                    0 <= xi < x ==> spec_cell(self.marked_positions@, self.grid.side, xi, y as int)
                        == Some(player),
            decreases s - x,
        {
            let held = match cell_of(&self.marked_positions, &self.grid.side, x, y) {
                Some(q) => q == player,
                None => false,
            };
            if !held {
                return false;
            }
            x += 1;
        }
        true
    }

    /// Whether the top-left to bottom-right diagonal is held by `player`.
    fn check_main_diag(&self, player: Player) -> (b: bool)
        requires
            self.wf(),
        ensures
            b == spec_main_diag_complete(self.marked_positions@, self.grid.side, player),
    {
        let s = self.grid.side.0;
        let mut z: u16 = 0;
        while z < s
            invariant
                self.wf(),
                s == self.grid.side.0,
                z <= s,
                forall|zi: int|
                    0 <= zi < z ==> spec_cell(self.marked_positions@, self.grid.side, zi, zi)
                        == Some(player),
            decreases s - z,
        {
            let held = match cell_of(&self.marked_positions, &self.grid.side, z, z) {
                Some(q) => q == player,
                None => false,
            };
            if !held {
                return false;
            }
            z += 1;
        }
        true
    }

    /// Whether the bottom-left to top-right diagonal is held by `player`:
    /// the cells `(x, side - 1 - x)` for every x.
    fn check_anti_diag(&self, player: Player) -> (b: bool)
        requires
            self.wf(),
        ensures
            b == spec_anti_diag_complete(self.marked_positions@, self.grid.side, player),
    {
        let s = self.grid.side.0;
        let mut x: u16 = 0;
        while x < s
            invariant
                self.wf(),
                s == self.grid.side.0,
                x <= s,
                forall|xi: int|
                    0 <= xi < x ==> #[trigger] spec_cell(
                        self.marked_positions@,
                        self.grid.side,
                        xi,
                        s - 1 - xi,
                    ) == Some(player),
            decreases s - x,
        {
            let held = match cell_of(&self.marked_positions, &self.grid.side, x, s - 1 - x) {
                Some(q) => q == player,
                None => false,
            };
            if !held {
                return false;
            }
            x += 1;
        }
        true
    }

    /// Whether `player` holds a complete line: checks every column, every
    /// row, then the two diagonals. The order only affects how soon a line
    /// is found, not the answer.
    pub fn check_for_victory(&self, player: &Player) -> (b: bool)
        requires
            self.wf(),
        ensures
            b == self.has_won(*player),
    {
        let s = self.grid.side.0;

        let mut x: u16 = 0;
        while x < s
            invariant
                self.wf(),
                s == self.grid.side.0,
                x <= s,
                forall|xi: int|
                    0 <= xi < x ==> !spec_col_complete(
                        self.marked_positions@,
                        self.grid.side,
                        xi,
                        *player,
                    ),
            decreases s - x,
        {
            if self.check_column(x, *player) {
                return true;
            }
            x += 1;
        }

        let mut y: u16 = 0;
        while y < s
            invariant
                self.wf(),
                s == self.grid.side.0,
                y <= s,
                forall|xi: int|
                    0 <= xi < s ==> !spec_col_complete(
                        self.marked_positions@,
                        self.grid.side,
                        xi,
                        *player,
                    ),
                forall|yi: int|
                    0 <= yi < y ==> !spec_row_complete(
                        self.marked_positions@,
                        self.grid.side,
                        yi,
                        *player,
                    ),
            decreases s - y,
        {
            if self.check_row(y, *player) {
                return true;
            }
            y += 1;
        }

        if self.check_main_diag(*player) {
            return true;
        }
        if self.check_anti_diag(*player) {
            return true;
        }
        false
    }

    /// Moves the cursor one step in the given direction, clamped to the
    /// board: stepping off an edge leaves the cursor on that edge.
    pub fn handle_direction(&mut self, direction: crate::Direction)
        requires
            old(self).wf(),
            old(self).cursor_in_bounds(),
        ensures
            final(self).wf(),
            final(self).cursor_in_bounds(),
            final(self).cursor.x == clamp_axis(
                old(self).cursor.x + direction.delta().x,
                old(self).grid.side,
            ),
            final(self).cursor.y == clamp_axis(
                old(self).cursor.y + direction.delta().y,
                old(self).grid.side,
            ),
            final(self).grid == old(self).grid,
            final(self).ai_algo == old(self).ai_algo,
            final(self).marked_positions == old(self).marked_positions,
            final(self).marked_count == old(self).marked_count,
    {
        let side = self.grid.side.0;
        let mut grid_coords = self.cursor + direction.get_relative_coords();
        if grid_coords.x >= side as i16 {
            grid_coords.x = side as i16 - 1;
        }
        if grid_coords.y >= side as i16 {
            grid_coords.y = side as i16 - 1;
        }
        if grid_coords.x < 0 {
            grid_coords.x = 0;
        }
        if grid_coords.y < 0 {
            grid_coords.y = 0;
        }
        self.cursor = grid_coords;
    }

    /// What handling a Mark input promises. Marking an occupied cell is
    /// rejected and changes nothing. On a free cell the human's mark lands
    /// first; then, in order: a completed human line ends the match, a full
    /// board is a draw (checked before any computer reply), and otherwise
    /// the computer replies on some free cell — the board grows by exactly
    /// two marks — and the match ends only if that reply completes a line.
    /// An unimplemented strategy is reported instead of replied with; the
    /// human's mark stands.
    pub open spec fn mark_event_post(pre: Self, post: Self, r: Result<
        StepOutcome,
        GameError,
    >) -> bool {
        let cur = pre.cursor;
        let side = pre.grid.side;
        let total = side.0 * side.0;
        let human_board = pre.marked_positions@.update(cur.y * side.0 + cur.x, Some(Player::Cross));
        if pre.cell(cur.x as int, cur.y as int) is Some {
            &&& r == Ok::<StepOutcome, GameError>(StepOutcome::Rejected)
            &&& post == pre
        } else if spec_has_won(human_board, side, Player::Cross) {
            &&& r == Ok::<StepOutcome, GameError>(
                StepOutcome::Marked {
                    human: cur,
                    ai_reply: None,
                    state: GameState::HumanWon,
                },
            )
            &&& post.marked_positions@ == human_board
            &&& post.marked_count == pre.marked_count + 1
            &&& post.cursor == cur
        } else if num_marked(human_board, total as int) == total {
            &&& r == Ok::<StepOutcome, GameError>(
                StepOutcome::Marked { human: cur, ai_reply: None, state: GameState::Draw },
            )
            &&& post.marked_positions@ == human_board
            &&& post.marked_count == pre.marked_count + 1
            &&& post.cursor == cur
        } else if pre.ai_algo is MiniMax {
            &&& r == Err::<StepOutcome, GameError>(GameError::NotImplemented)
            &&& post.marked_positions@ == human_board
            &&& post.marked_count == pre.marked_count + 1
            &&& post.cursor == cur
        } else {
            &&& (r matches Ok(StepOutcome::Marked { human, ai_reply, state }) && {
                &&& human == cur
                &&& ai_reply matches Some(c) && {
                    &&& spec_in_bounds(side, c)
                    &&& spec_cell(human_board, side, c.x as int, c.y as int) is None
                    &&& post.marked_positions@ == human_board.update(
                        c.y * side.0 + c.x,
                        Some(Player::Zero),
                    )
                }
                &&& state == (if spec_has_won(post.marked_positions@, side, Player::Zero) {
                    GameState::ComputerWon
                } else {
                    GameState::AwaitingInput
                })
            })
            &&& post.marked_count == pre.marked_count + 2
            &&& post.cursor == cur
        }
    }

    /// Feeds one input event through the state machine while the match
    /// awaits input: a direction moves the cursor (clamped to the board), a
    /// quit ends the session, and a mark plays one full turn as
    /// `mark_event_post` describes.
    pub fn handle_event(&mut self, event: InputEvent) -> (r: Result<StepOutcome, GameError>)
        requires
            old(self).wf(),
            old(self).cursor_in_bounds(),
        ensures
            final(self).wf(),
            final(self).cursor_in_bounds(),
            final(self).grid == old(self).grid,
            final(self).ai_algo == old(self).ai_algo,
            match event {
                InputEvent::Direction(d) => {
                    &&& r == Ok::<StepOutcome, GameError>(StepOutcome::Moved)
                    &&& final(self).cursor.x == clamp_axis(
                        old(self).cursor.x + d.delta().x,
                        old(self).grid.side,
                    )
                    &&& final(self).cursor.y == clamp_axis(
                        old(self).cursor.y + d.delta().y,
                        old(self).grid.side,
                    )
                    &&& final(self).marked_positions == old(self).marked_positions
                    &&& final(self).marked_count == old(self).marked_count
                },
                InputEvent::Quit => r == Ok::<StepOutcome, GameError>(StepOutcome::Quit) && *final(self) == *old(self),
                InputEvent::Mark => Self::mark_event_post(*old(self), *final(self), r),
            },
    {
        match event {
            InputEvent::Direction(direction) => {
                self.handle_direction(direction);
                Ok(StepOutcome::Moved)
            },
            InputEvent::Quit => Ok(StepOutcome::Quit),
            InputEvent::Mark => {
                let human = self.cursor;
                let marked = self.mark_cross();
                if marked.is_err() {
                    return Ok(StepOutcome::Rejected);
                }
                if self.check_for_victory(&Player::Cross) {
                    return Ok(
                        StepOutcome::Marked {
                            human,
                            ai_reply: None,
                            state: GameState::HumanWon,
                        },
                    );
                }
                if !self.grid_has_empty_boxes() {
                    return Ok(
                        StepOutcome::Marked { human, ai_reply: None, state: GameState::Draw },
                    );
                }
                proof {
                    lemma_num_marked_le(
                        self.marked_positions@,
                        (self.grid.side.0 * self.grid.side.0) as int,
                    );
                }
                let algo = self.ai_algo;
                let ai_cursor = match algo.get_marker(&self.marked_positions, &self.grid.side) {
                    Ok(c) => c,
                    Err(e) => {
                        return Err(e);
                    },
                };
                self.set_cursor_to_grid(&ai_cursor);
                let _replied = self.mark_zero();
                self.set_cursor_to_grid(&human);
                let ai_won = self.check_for_victory(&Player::Zero);
                let state = if ai_won {
                    GameState::ComputerWon
                } else {
                    GameState::AwaitingInput
                };
                Ok(StepOutcome::Marked { human, ai_reply: Some(ai_cursor), state })
            },
        }
    }
}

/// Where the state machine of one match stands: still consuming input, or
/// one of the four ways a match ends.
#[derive(Debug, Clone, Copy, PartialEq, Eq, Structural)]
pub enum GameState {
    AwaitingInput,
    HumanWon,
    ComputerWon,
    Draw,
    Quit,
}

/// What one handled input did, so a caller can redraw exactly what changed.
#[derive(Debug, Clone, Copy, PartialEq, Eq)]
pub enum StepOutcome {
    /// A direction input: the cursor moved (or stayed pinned at an edge).
    Moved,
    /// A mark on an occupied cell: discarded, nothing changed.
    Rejected,
    /// A mark landed at `human`; `ai_reply` is the computer's reply cell if
    /// the match went on; `state` says where the match stands afterwards.
    Marked { human: Coordinates, ai_reply: Option<Coordinates>, state: GameState },
    /// The session was ended by the player.
    Quit,
}

} // verus!
