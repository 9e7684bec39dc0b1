//! Transforms between world positions, board cells and chunks.
use vstd::prelude::*;

use crate::constants::{BOARD_SIZE_COLS, BOARD_SIZE_ROWS, TILE_SIZE, CHUNK_SIZE};

verus! {

/// Grid column (or row) of a point of the walker's plane: tiles are `TILE_SIZE` wide
/// and the world origin is a cell corner.
pub open spec fn grid_of(w: int) -> int {
    w / (TILE_SIZE as int)
}

/// Top-left grid cell `(column, row)` of a centred grid cell: the world origin
/// lies in the cell at the middle of the board, and rows grow downwards.
pub open spec fn top_left_of(gx: int, gy: int) -> (int, int) {
    (gx + (BOARD_SIZE_COLS / 2) as int, (BOARD_SIZE_ROWS / 2) as int - gy)
}

/// Chunk of a top-left grid cell.
pub open spec fn chunk_of(tx: int, ty: int) -> (int, int) {
    (tx / (CHUNK_SIZE as int), ty / (CHUNK_SIZE as int))
}

/// Floor division by a positive divisor.
pub(crate) fn floor_div(a: i64, d: i64) -> (r: i64)
    requires
        d > 0,
    ensures
        r == a / d,
{
    proof {
        assert(i64::MIN <= a / d <= i64::MAX) by (nonlinear_arith)
            requires d > 0, i64::MIN <= a <= i64::MAX;
    }
    match a.checked_div_euclid(d) {
        Some(q) => q,
        None => 0,
    }
}

/// Grid cell of a world position, counted from the world origin.
pub fn world_to_grid(x: i32, y: i32) -> (r: (i64, i64))
    ensures
        r.0 == grid_of(x as int),
        r.1 == grid_of(y as int),
        -67109 <= r.0 <= 67108,
        -67109 <= r.1 <= 67108,
{
    let gx = floor_div(x as i64, TILE_SIZE as i64);
    let gy = floor_div(y as i64, TILE_SIZE as i64);
    proof {
        assert(-67109 <= grid_of(x as int) <= 67108) by (nonlinear_arith)
            requires -2147483648 <= x <= 2147483647;
        assert(-67109 <= grid_of(y as int) <= 67108) by (nonlinear_arith)
            requires -2147483648 <= y <= 2147483647;
    }
    (gx, gy)
}

/// Moves a centred grid cell to top-left coordinates `(column, row)`.
pub fn center_to_top_left_grid(gx: i64, gy: i64) -> (r: (i64, i64))
    requires
        gx <= i64::MAX - (BOARD_SIZE_COLS / 2) as int,
        gy >= (BOARD_SIZE_ROWS / 2) as int - i64::MAX,
    ensures
        r.0 == top_left_of(gx as int, gy as int).0,
        r.1 == top_left_of(gx as int, gy as int).1,
{
    (gx + (BOARD_SIZE_COLS / 2) as i64, (BOARD_SIZE_ROWS / 2) as i64 - gy)
}

/// Chunk `(chunk_x, chunk_y)` of a top-left grid cell.
pub fn grid_to_chunk(tx: i64, ty: i64) -> (r: (i32, i32))
    requires
        i32::MIN <= chunk_of(tx as int, ty as int).0 <= i32::MAX,
        i32::MIN <= chunk_of(tx as int, ty as int).1 <= i32::MAX,
    ensures
        r.0 == chunk_of(tx as int, ty as int).0,
        r.1 == chunk_of(tx as int, ty as int).1,
{
    let cx = floor_div(tx, CHUNK_SIZE);
    let cy = floor_div(ty, CHUNK_SIZE);
    (cx as i32, cy as i32)
}

/// Chunk of a world position.
pub open spec fn world_chunk(x: int, y: int) -> (int, int) {
    let t = top_left_of(grid_of(x), grid_of(y));
    chunk_of(t.0, t.1)
}

/// Chunk of a world position, through the grid and its top-left origin.
pub fn world_to_chunk(x: i32, y: i32) -> (r: (i32, i32))
    ensures
        r.0 == world_chunk(x as int, y as int).0,
        r.1 == world_chunk(x as int, y as int).1,
{
    let (gx, gy) = world_to_grid(x, y);
    let (tx, ty) = center_to_top_left_grid(gx, gy);
    proof {
        assert(-10000 <= tx / 7 <= 10000) by (nonlinear_arith)
            requires -67200 <= tx <= 67200;
        assert(-10000 <= ty / 7 <= 10000) by (nonlinear_arith)
            requires -67200 <= ty <= 67200;
    }
    grid_to_chunk(tx, ty)
}

} // verus!
