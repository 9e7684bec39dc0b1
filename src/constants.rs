use vstd::prelude::*;

verus! {

/// Rows of the game board.
pub const BOARD_SIZE_ROWS: usize = 14;

/// Columns of the game board.
pub const BOARD_SIZE_COLS: usize = 21;

/// Largest number of rows or columns that a generated board may have.
pub const MAX_BOARD_DIM: usize = 4096;

/// Fixed-point steps in one world unit.
pub const MILLI: i32 = 1000;

/// Side of one board tile in the walker's plane, in steps (32 units).
///
/// Board cells have two placements. In the scene, the prop of cell
/// `(row, col)` stands at `x = row`, `z = col` world units, one unit apart.
/// In the plane that the continuous walker moves in, `x` runs along columns
/// and `y` along rows (upwards), and a tile is `TILE_SIZE` wide.
pub const TILE_SIZE: i32 = 32000;

/// Side of one chunk, in cells.
pub const CHUNK_SIZE: i64 = 7;

/// Largest height jitter of a cell, exclusive, in world steps (a tenth of a unit).
pub const HEIGHT_JITTER: i32 = 100;

/// Fixed-point steps in a noise value of one.
pub const NOISE_ONE: i64 = 1000000;

/// Largest magnitude of an accepted noise sample (a noise value of 1000).
pub const NOISE_LIMIT: i64 = 1000000000;

/// Height of the terrain mesh at a noise value of one, in world units.
pub const TERRAIN_HEIGHT: i64 = 70;

/// Cooldown after an accepted grid step, in milliseconds.
pub const MOVE_COOLDOWN_MS: u64 = 300;

} // verus!
