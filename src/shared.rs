//! Types shared by the terrain generator and the player controller.
use vstd::prelude::*;

use crate::constants::{HEIGHT_JITTER, MOVE_COOLDOWN_MS};
use crate::terrain::{board_shape, Board};

use rand::rngs::{OsRng, StdRng};
use rand::Rng;
use rand::SeedableRng;

verus! {

/// Top-level state of a run.
#[derive(Clone, Copy, PartialEq, Eq, Structural, Debug, Default)]
pub enum GameState {
    #[default]
    Playing,
}

/// Errors of board generation and lookup.
#[derive(Clone, Copy, PartialEq, Eq, Structural, Debug)]
pub enum GameError {
    /// A board dimension is zero or larger than `MAX_BOARD_DIM`, or the
    /// noise samples do not cover the board.
    InvalidDimensions,
    /// A noise sample is missing (not finite) or outside `[-NOISE_LIMIT, NOISE_LIMIT]`.
    NumericError,
    /// A cell index lies outside the board.
    OutOfBounds,
    /// The system could not provide entropy to seed the random generator.
    EntropyUnavailable,
}

/// Classification of a board cell.
#[derive(Clone, Copy, PartialEq, Eq, Structural, Debug)]
pub enum CellType {
    Ground,
    Water,
}

/// A point of the world, in fixed-point steps (`MILLI` to a unit);
/// `y` is the height.
#[derive(Clone, Copy, PartialEq, Eq, Structural, Debug)]
pub struct WorldPos {
    pub x: i32,
    pub y: i32,
    pub z: i32,
}

/// One tile of the board: where its prop stands and what it is.
#[derive(Clone, Copy, PartialEq, Eq, Structural, Debug)]
pub struct Cell {
    pub position: WorldPos,
    pub cell_type: CellType,
}

/// Classification of a noise sample: negative noise is water.
pub open spec fn classify(noise: int) -> CellType {
    if noise < 0 {
        CellType::Water
    } else {
        CellType::Ground
    }
}

impl Cell {
    /// A cell anchored at `(x, y, z)` and classified by its noise sample.
    pub fn new(x: i32, y: i32, z: i32, noise: i64) -> (r: Cell)
        ensures
            r.position == (WorldPos { x, y, z }),
            r.cell_type == classify(noise as int),
    {
        Cell {
            position: WorldPos { x, y, z },
            cell_type: if noise < 0 {
                CellType::Water
            } else {
                CellType::Ground
            },
        }
    }
}

/// Keys held during one tick.
#[derive(Clone, Copy, PartialEq, Eq, Structural, Debug, Default)]
pub struct InputSnapshot {
    pub up: bool,
    pub down: bool,
    pub left: bool,
    pub right: bool,
    /// The run modifier.
    pub run: bool,
}

#[verifier::external_type_specification]
#[verifier::external_body]
pub struct ExStdRng(StdRng);

/// Seed used when a run must be reproducible.
pub const FIXED_SEED: u64 = 19878367467713;

/// The run's single random generator, with the seed it was made from
/// (none when it was seeded from the system's entropy).
pub struct Random(pub StdRng, pub Ghost<Option<u64>>);

/// Relies on rand's `SeedableRng::seed_from_u64` for `StdRng`.
#[verifier::external_body]
fn seeded_rng(seed: u64) -> StdRng {
    StdRng::seed_from_u64(seed)
}

/// Relies on rand's `SeedableRng::from_rng` for `StdRng`, seeded from
/// `OsRng`: it fails, without panicking, when the system has no entropy.
#[verifier::external_body]
fn entropy_rng() -> Option<StdRng> {
    StdRng::from_rng(OsRng).ok()
}

/// Relies on rand's `Rng::gen::<u32>`: any `u32` may come back.
#[verifier::external_body]
fn draw_u32(rng: &mut StdRng) -> u32 {
    rng.gen::<u32>()
}

/// Relies on rand's `Rng::gen_range` on `lo..hi`, which panics on an empty
/// range and otherwise returns a value in it.
#[verifier::external_body]
fn draw_in_range(rng: &mut StdRng, lo: i64, hi: i64) -> (r: i64)
    requires
        lo < hi,
    ensures
        lo <= r < hi,
{
    rng.gen_range(lo..hi)
}

impl Random {
    /// The generator of a run: seeded with `FIXED_SEED` when the run must be
    /// reproducible, from the system's entropy otherwise; `EntropyUnavailable`
    /// when the system has none.
    pub fn for_run(reproducible: bool) -> (r: Result<Random, GameError>)
        ensures
            reproducible ==> r is Ok && r->Ok_0.1@ == Some(FIXED_SEED),
            !reproducible ==> r is Ok && r->Ok_0.1@ == None::<u64> || r == Err::<Random, GameError>(
                GameError::EntropyUnavailable,
            ),
    {
        if reproducible {
            Ok(Random(seeded_rng(FIXED_SEED), Ghost(Some(FIXED_SEED))))
        } else {
            match entropy_rng() {
                Some(rng) => Ok(Random(rng, Ghost(None))),
                None => Err(GameError::EntropyUnavailable),
            }
        }
    }

    /// Draws the seed of the noise field.
    pub fn noise_seed(&mut self) -> (r: u32) {
        draw_u32(&mut self.0)
    }

    /// Draws a height jitter, in `-HEIGHT_JITTER..HEIGHT_JITTER`.
    pub fn height_jitter(&mut self) -> (r: i32)
        ensures
            -HEIGHT_JITTER <= r < HEIGHT_JITTER,
    {
        draw_in_range(&mut self.0, -HEIGHT_JITTER as i64, HEIGHT_JITTER as i64) as i32
    }
}

/// Direction that the player on the grid faces.
#[derive(Clone, Copy, PartialEq, Eq, Structural, Debug)]
pub enum Facing {
    Up,
    Down,
    Right,
    Left,
}

/// The player of the grid-stepping model: its cell, the cooldown left before
/// it may step again, where it faces, and the anchor of its cell.
///
/// "Up" and "down" move along rows (up raises the row), "right" and "left"
/// along columns (right raises the column).
#[derive(Clone, Copy, PartialEq, Eq, Structural, Debug)]
pub struct Player {
    pub row: usize,
    pub col: usize,
    /// Milliseconds left before the next step.
    pub move_cooldown: u64,
    pub facing: Facing,
    /// World anchor of the player's cell.
    pub anchor: WorldPos,
}

/// Row after the vertical keys, each applied in turn and clamped to the board.
pub open spec fn step_row(row: int, rows: int, input: InputSnapshot) -> int {
    let r = if input.up && row < rows - 1 {
        row + 1
    } else {
        row
    };
    if input.down && r > 0 {
        r - 1
    } else {
        r
    }
}

/// Column after the horizontal keys, each applied in turn and clamped to the board.
pub open spec fn step_col(col: int, cols: int, input: InputSnapshot) -> int {
    let c = if input.right && col < cols - 1 {
        col + 1
    } else {
        col
    };
    if input.left && c > 0 {
        c - 1
    } else {
        c
    }
}

/// Facing after a step: the last key of up, down, right, left that is held.
pub open spec fn facing_after(facing: Facing, input: InputSnapshot) -> Facing {
    if input.left {
        Facing::Left
    } else if input.right {
        Facing::Right
    } else if input.down {
        Facing::Down
    } else if input.up {
        Facing::Up
    } else {
        facing
    }
}

/// One tick of the grid model on the board `cells`, `dt` milliseconds long.
///
/// The cooldown runs down by `dt`; while time is left nothing else happens.
/// Once it has run out the held keys move the player, each on its own axis
/// and clamped to the board; if the cell changed, the cooldown restarts, the
/// player turns to the last key held and takes the new cell's anchor.
pub open spec fn grid_step(p: Player, cells: Seq<Seq<Cell>>, dt: u64, input: InputSnapshot) -> Player {
    let left = if p.move_cooldown > dt {
        p.move_cooldown - dt
    } else {
        0
    };
    if left > 0 {
        Player { move_cooldown: left as u64, ..p }
    } else {
        let r = step_row(p.row as int, cells.len() as int, input);
        let c = step_col(p.col as int, cells[0].len() as int, input);
        if r == p.row && c == p.col {
            Player { move_cooldown: 0, ..p }
        } else {
            Player {
                row: r as usize,
                col: c as usize,
                move_cooldown: MOVE_COOLDOWN_MS,
                facing: facing_after(p.facing, input),
                anchor: cells[r][c].position,
            }
        }
    }
}

/// The player stands on a cell of `board`.
pub open spec fn on_board(p: Player, board: &Board) -> bool {
    p.row < board.rows() && p.col < board.cols()
}

impl Player {
    /// A player at `(row, col)` of `board`, facing up, free to step; or
    /// `OutOfBounds` outside the board.
    pub fn spawn(board: &Board, row: usize, col: usize) -> (r: Result<Player, GameError>)
        requires
            board.wf(),
        ensures
            row < board.rows() && col < board.cols() ==> r == Ok::<Player, GameError>(
                Player {
                    row,
                    col,
                    move_cooldown: 0,
                    facing: Facing::Up,
                    anchor: board@[row as int][col as int].position,
                },
            ),
            !(row < board.rows() && col < board.cols()) ==> r == Err::<Player, GameError>(
                GameError::OutOfBounds,
            ),
    {
        match board.cell_at(row, col) {
            Ok(cell) => Ok(Player { row, col, move_cooldown: 0, facing: Facing::Up, anchor: cell.position }),
            Err(e) => Err(e),
        }
    }

    /// Runs one tick of `dt` milliseconds with the keys of `input`; returns
    /// whether the player moved to another cell.
    pub fn step(&mut self, board: &Board, dt: u64, input: InputSnapshot) -> (moved: bool)
        requires
            board.wf(),
            on_board(*old(self), board),
        ensures
            *final(self) == grid_step(*old(self), board@, dt, input),
            on_board(*final(self), board),
            moved == (final(self).row != old(self).row || final(self).col != old(self).col),
    {
        let (rows, cols) = board.dimensions();
        let left = self.move_cooldown.saturating_sub(dt);
        if left > 0 {
            self.move_cooldown = left;
            return false;
        }
        let mut r = self.row;
        if input.up && r < rows - 1 {
            r = r + 1;
        }
        if input.down && r > 0 {
            r = r - 1;
        }
        let mut c = self.col;
        if input.right && c < cols - 1 {
            c = c + 1;
        }
        if input.left && c > 0 {
            c = c - 1;
        }
        if r == self.row && c == self.col {
            self.move_cooldown = 0;
            return false;
        }
        let facing = if input.left {
            Facing::Left
        } else if input.right {
            Facing::Right
        } else if input.down {
            Facing::Down
        } else if input.up {
            Facing::Up
        } else {
            self.facing
        };
        let anchor = match board.cell_at(r, c) {
            Ok(cell) => cell.position,
            Err(_) => self.anchor,
        };
        *self = Player { row: r, col: c, move_cooldown: MOVE_COOLDOWN_MS, facing, anchor };
        true
    }
}

/// The board of a run and its grid player.
pub struct Game {
    pub board: Board,
    pub player: Player,
}

/// The player after one tick per entry of `dts`, the keys held throughout.
pub open spec fn grid_steps(p: Player, cells: Seq<Seq<Cell>>, dts: Seq<u64>, input: InputSnapshot) -> Player
    decreases dts.len(),
{
    if dts.len() == 0 {
        p
    } else {
        grid_steps(grid_step(p, cells, dts[0], input), cells, dts.drop_first(), input)
    }
}

/// Moving up from the top row, however often and however long the ticks,
/// leaves the player on the top row.
pub proof fn lemma_up_at_top_stays(p: Player, cells: Seq<Seq<Cell>>, dts: Seq<u64>, input: InputSnapshot)
    requires
        board_shape(cells),
        p.row == cells.len() - 1,
        p.col < cells[0].len(),
        input.up,
        !input.down,
    ensures
        grid_steps(p, cells, dts, input).row == cells.len() - 1,
    decreases dts.len(),
{
    if dts.len() > 0 {
        let q = grid_step(p, cells, dts[0], input);
        assert(q.row == cells.len() - 1);
        assert(q.col < cells[0].len());
        lemma_up_at_top_stays(q, cells, dts.drop_first(), input);
    }
}

} // verus!
