//! The board of cells and the terrain mesh shading, both driven by noise.
use vstd::prelude::*;

use crate::constants::{BOARD_SIZE_COLS, BOARD_SIZE_ROWS, HEIGHT_JITTER, MILLI, MAX_BOARD_DIM, NOISE_LIMIT, TERRAIN_HEIGHT};
use crate::grid::floor_div;
use crate::shared::{classify, Cell, CellType, Facing, Game, GameError, Player, Random, WorldPos};

verus! {

/// A noise sample that generation accepts: present (the noise was finite)
/// and within `[-NOISE_LIMIT, NOISE_LIMIT]`.
pub open spec fn sample_ok(s: Option<i64>) -> bool {
    &&& s is Some
    &&& -NOISE_LIMIT <= s->0 <= NOISE_LIMIT
}

/// Board dimensions that generation accepts.
pub open spec fn dims_ok(rows: int, cols: int) -> bool {
    1 <= rows <= MAX_BOARD_DIM && 1 <= cols <= MAX_BOARD_DIM
}

/// `grid` holds `rows` rows of `cols` entries.
pub open spec fn covers<T>(grid: Seq<Vec<T>>, rows: int, cols: int) -> bool {
    &&& grid.len() == rows
    &&& forall|i: int| 0 <= i < rows ==> (#[trigger] grid[i])@.len() == cols
}

/// Every sample of a `rows` by `cols` grid is accepted.
pub open spec fn samples_ok(samples: Seq<Vec<Option<i64>>>, rows: int, cols: int) -> bool {
    forall|i: int, j: int| 0 <= i < rows && 0 <= j < cols ==> sample_ok(#[trigger] samples[i]@[j])
}

/// The cell at `(row, col)`: anchored `row` units along `x` and `col` units
/// along `z`, raised by its jitter, and classified by its noise sample.
pub open spec fn cell_spec(row: int, col: int, jitter: int, noise: int) -> Cell {
    Cell {
        position: WorldPos {
            x: (row * MILLI) as i32,
            y: jitter as i32,
            z: (col * MILLI) as i32,
        },
        cell_type: classify(noise),
    }
}

/// The cells generated from a grid of samples and a grid of jitters.
pub open spec fn board_cells(
    rows: int,
    cols: int,
    samples: Seq<Vec<Option<i64>>>,
    jitters: Seq<Vec<i32>>,
) -> Seq<Seq<Cell>> {
    Seq::new(
        rows as nat,
        |i: int|
            Seq::new(
                cols as nat,
                |j: int| cell_spec(i, j, jitters[i]@[j] as int, samples[i]@[j]->0 as int),
            ),
    )
}

/// `cells` is a board with rows of equal length, both dimensions accepted.
pub open spec fn board_shape(cells: Seq<Seq<Cell>>) -> bool {
    &&& cells.len() >= 1
    &&& dims_ok(cells.len() as int, cells[0].len() as int)
    &&& forall|i: int| 0 <= i < cells.len() ==> (#[trigger] cells[i]).len() == cells[0].len()
}

/// A grid of cells of fixed dimensions.
pub struct Board {
    cells: Vec<Vec<Cell>>,
}

impl View for Board {
    type V = Seq<Seq<Cell>>;

    closed spec fn view(&self) -> Seq<Seq<Cell>> {
        Seq::new(self.cells@.len(), |i: int| self.cells@[i]@)
    }
}

impl Board {
    /// The board's rows hold equally many cells, and both dimensions are accepted.
    pub open spec fn wf(&self) -> bool {
        board_shape(self@)
    }

    /// Number of rows.
    pub open spec fn rows(&self) -> int {
        self@.len() as int
    }

    /// Number of columns.
    pub open spec fn cols(&self) -> int {
        self@[0].len() as int
    }

    /// `(rows, cols)` of the board.
    pub fn dimensions(&self) -> (r: (usize, usize))
        requires
            self.wf(),
        ensures
            r.0 == self.rows(),
            r.1 == self.cols(),
    {
        (self.cells.len(), self.cells[0].len())
    }

    /// The cell at `(row, col)`, or `OutOfBounds` outside the board.
    pub fn cell_at(&self, row: usize, col: usize) -> (r: Result<Cell, GameError>)
        requires
            self.wf(),
        ensures
            row < self.rows() && col < self.cols() ==> r == Ok::<Cell, GameError>(self@[row as int][col as int]),
            !(row < self.rows() && col < self.cols()) ==> r == Err::<Cell, GameError>(GameError::OutOfBounds),
    {
        if row < self.cells.len() && col < self.cells[0].len() {
            assert(self.cells@[row as int]@.len() == self@[row as int].len());
            Ok(self.cells[row][col])
        } else {
            Err(GameError::OutOfBounds)
        }
    }

    /// Whether the cell at `(row, col)` is ground; no cell outside the board is.
    pub fn is_ground(&self, row: i64, col: i64) -> (r: bool)
        requires
            self.wf(),
        ensures
            r == (0 <= row < self.rows() && 0 <= col < self.cols()
                && self@[row as int][col as int].cell_type == CellType::Ground),
    {
        if row < 0 || col < 0 {
            return false;
        }
        if row as u64 >= self.cells.len() as u64 || col as u64 >= self.cells[0].len() as u64 {
            return false;
        }
        let r = row as usize;
        let c = col as usize;
        assert(self.cells@[r as int]@.len() == self@[r as int].len());
        let cell = self.cells[r][c];
        match cell.cell_type {
            CellType::Ground => true,
            CellType::Water => false,
        }
    }
}

/// Whether `grid` holds `rows` rows of `cols` entries.
fn covers_exec<T>(grid: &Vec<Vec<T>>, rows: usize, cols: usize) -> (r: bool)
    ensures
        r == covers(grid@, rows as int, cols as int),
{
    if grid.len() != rows {
        return false;
    }
    let mut i: usize = 0;
    while i < rows
        invariant
            grid@.len() == rows,
            0 <= i <= rows,
            forall|k: int| 0 <= k < i ==> (#[trigger] grid@[k])@.len() == cols,
        decreases rows - i,
    {
        if grid[i].len() != cols {
            return false;
        }
        i += 1;
    }
    true
}

/// The inputs that generation accepts have accepted dimensions, and the
/// samples and jitters cover the board.
pub open spec fn inputs_cover(
    rows: int,
    cols: int,
    samples: Seq<Vec<Option<i64>>>,
    jitters: Seq<Vec<i32>>,
) -> bool {
    dims_ok(rows, cols) && covers(samples, rows, cols) && covers(jitters, rows, cols)
}

/// Builds the board of `rows` by `cols` cells from one noise sample and one
/// height jitter per cell, both indexed `[row][col]`.
pub fn generate_board(
    rows: usize,
    cols: usize,
    samples: &Vec<Vec<Option<i64>>>,
    jitters: &Vec<Vec<i32>>,
) -> (r: Result<Board, GameError>)
    ensures
        !inputs_cover(rows as int, cols as int, samples@, jitters@) ==> r == Err::<Board, GameError>(
            GameError::InvalidDimensions,
        ),
        inputs_cover(rows as int, cols as int, samples@, jitters@) && !samples_ok(
            samples@,
            rows as int,
            cols as int,
        ) ==> r == Err::<Board, GameError>(GameError::NumericError),
        inputs_cover(rows as int, cols as int, samples@, jitters@) && samples_ok(
            samples@,
            rows as int,
            cols as int,
        ) ==> r is Ok && r->Ok_0.wf() && r->Ok_0@ == board_cells(
            rows as int,
            cols as int,
            samples@,
            jitters@,
        ),
{
    if rows == 0 || cols == 0 || rows > MAX_BOARD_DIM || cols > MAX_BOARD_DIM {
        return Err(GameError::InvalidDimensions);
    }
    if !covers_exec(samples, rows, cols) || !covers_exec(jitters, rows, cols) {
        return Err(GameError::InvalidDimensions);
    }
    let ghost target = board_cells(rows as int, cols as int, samples@, jitters@);
    let mut cells: Vec<Vec<Cell>> = Vec::new();
    let mut i: usize = 0;
    while i < rows
        invariant
            inputs_cover(rows as int, cols as int, samples@, jitters@),
            target == board_cells(rows as int, cols as int, samples@, jitters@),
            0 <= i <= rows,
            cells@.len() == i,
            forall|k: int| 0 <= k < i ==> (#[trigger] cells@[k])@ == target[k],
            forall|a: int, b: int|
                0 <= a < i && 0 <= b < cols ==> sample_ok(#[trigger] samples@[a]@[b]),
        decreases rows - i,
    {
        let mut row: Vec<Cell> = Vec::new();
        let mut j: usize = 0;
        while j < cols
            invariant
                inputs_cover(rows as int, cols as int, samples@, jitters@),
                target == board_cells(rows as int, cols as int, samples@, jitters@),
                0 <= i < rows,
                0 <= j <= cols,
                row@.len() == j,
                forall|k: int| 0 <= k < j ==> (#[trigger] row@[k]) == target[i as int][k],
                forall|b: int| 0 <= b < j ==> sample_ok(#[trigger] samples@[i as int]@[b]),
            decreases cols - j,
        {
            assert(samples@[i as int]@.len() == cols);
            assert(jitters@[i as int]@.len() == cols);
            let noise = match samples[i][j] {
                Some(n) => n,
                None => {
                    return Err(GameError::NumericError);
                },
            };
            if noise < -NOISE_LIMIT || noise > NOISE_LIMIT {
                return Err(GameError::NumericError);
            }
            let cell = Cell::new((i as i32) * MILLI, jitters[i][j], (j as i32) * MILLI, noise);
            row.push(cell);
            j += 1;
        }
        assert(row@ =~= target[i as int]);
        cells.push(row);
        i += 1;
    }
    let board = Board { cells };
    assert(board@ =~= target);
    Ok(board)
}

/// `cells` is a `rows` by `cols` board generated from `samples`: each cell is
/// anchored `row` units along `x` and `col` units along `z`, classified by
/// its sample, and raised by a jitter in `-HEIGHT_JITTER..HEIGHT_JITTER`.
pub open spec fn board_from_samples(
    cells: Seq<Seq<Cell>>,
    rows: int,
    cols: int,
    samples: Seq<Vec<Option<i64>>>,
) -> bool {
    &&& cells.len() == rows
    &&& forall|i: int| 0 <= i < rows ==> (#[trigger] cells[i]).len() == cols
    &&& forall|i: int, j: int|
        0 <= i < rows && 0 <= j < cols ==> {
            let c = #[trigger] cells[i][j];
            &&& c.position.x == i * MILLI
            &&& c.position.z == j * MILLI
            &&& -HEIGHT_JITTER <= c.position.y < HEIGHT_JITTER
            &&& c.cell_type == classify(samples[i]@[j]->0 as int)
        }
}

/// Generates the board of `rows` by `cols` cells from one noise sample per
/// cell, indexed `[row][col]`, drawing the cells' height jitters from `rng`
/// in row-major order.
pub fn generate(
    rows: usize,
    cols: usize,
    samples: &Vec<Vec<Option<i64>>>,
    rng: &mut Random,
) -> (r: Result<Board, GameError>)
    ensures
        !(dims_ok(rows as int, cols as int) && covers(samples@, rows as int, cols as int))
            ==> r == Err::<Board, GameError>(GameError::InvalidDimensions),
        dims_ok(rows as int, cols as int) && covers(samples@, rows as int, cols as int)
            && !samples_ok(samples@, rows as int, cols as int) ==> r == Err::<Board, GameError>(
            GameError::NumericError,
        ),
        dims_ok(rows as int, cols as int) && covers(samples@, rows as int, cols as int)
            && samples_ok(samples@, rows as int, cols as int) ==> r is Ok && r->Ok_0.wf()
            && board_from_samples(r->Ok_0@, rows as int, cols as int, samples@),
{
    if rows == 0 || cols == 0 || rows > MAX_BOARD_DIM || cols > MAX_BOARD_DIM || !covers_exec(
        samples,
        rows,
        cols,
    ) {
        return Err(GameError::InvalidDimensions);
    }
    let mut jitters: Vec<Vec<i32>> = Vec::new();
    let mut i: usize = 0;
    while i < rows
        invariant
            0 <= i <= rows,
            jitters@.len() == i,
            forall|k: int| 0 <= k < i ==> (#[trigger] jitters@[k])@.len() == cols,
            forall|a: int, b: int|
                0 <= a < i && 0 <= b < cols ==> -HEIGHT_JITTER <= #[trigger] jitters@[a]@[b]
                    < HEIGHT_JITTER,
        decreases rows - i,
    {
        let mut row: Vec<i32> = Vec::new();
        let mut j: usize = 0;
        while j < cols
            invariant
                0 <= j <= cols,
                row@.len() == j,
                forall|b: int| 0 <= b < j ==> -HEIGHT_JITTER <= #[trigger] row@[b] < HEIGHT_JITTER,
            decreases cols - j,
        {
            let jitter = rng.height_jitter();
            row.push(jitter);
            j += 1;
        }
        jitters.push(row);
        i += 1;
    }
    let r = generate_board(rows, cols, samples, &jitters);
    proof {
        if samples_ok(samples@, rows as int, cols as int) {
            let cells = board_cells(rows as int, cols as int, samples@, jitters@);
            assert forall|i: int, j: int| 0 <= i < rows && 0 <= j < cols implies {
                let c = #[trigger] cells[i][j];
                &&& c.position.x == i * MILLI
                &&& c.position.z == j * MILLI
                &&& -HEIGHT_JITTER <= c.position.y < HEIGHT_JITTER
                &&& c.cell_type == classify(samples@[i]@[j]->0 as int)
            } by {
                assert(-HEIGHT_JITTER <= jitters@[i]@[j] < HEIGHT_JITTER);
                assert(0 <= i * MILLI <= 4096 * 1000) by (nonlinear_arith)
                    requires 0 <= i <= 4096;
                assert(0 <= j * MILLI <= 4096 * 1000) by (nonlinear_arith)
                    requires 0 <= j <= 4096;
            }
        }
    }
    r
}

/// Colour band of a terrain mesh vertex, by normalised elevation.
#[derive(Clone, Copy, PartialEq, Eq, Structural, Debug)]
pub enum ElevationBand {
    /// Normalised elevation above 0.8.
    Peak,
    /// Normalised elevation above 0.3, up to 0.8.
    Highland,
    /// Normalised elevation from -0.8 up to 0.3.
    Meadow,
    /// Normalised elevation below -0.8.
    Abyss,
}

/// Height and colour band of one terrain mesh vertex.
#[derive(Clone, Copy, PartialEq, Eq, Structural, Debug)]
pub struct VertexShade {
    /// Elevation, in world steps.
    pub elevation: i32,
    pub band: ElevationBand,
}

/// Band of a vertex whose noise sample is `noise`: the normalised elevation
/// is twice the noise value, compared with 0.8, 0.3 and -0.8.
pub open spec fn band_of(noise: int) -> ElevationBand {
    let g = 2 * noise;
    if g > 800000 {
        ElevationBand::Peak
    } else if g > 300000 {
        ElevationBand::Highland
    } else if g < -800000 {
        ElevationBand::Abyss
    } else {
        ElevationBand::Meadow
    }
}

/// Elevation of a vertex, in world steps, rounded down: the noise value
/// times `TERRAIN_HEIGHT` units.
pub open spec fn elevation_of(noise: int) -> int {
    (noise * TERRAIN_HEIGHT) / 1000
}

/// Shade of a vertex whose noise sample is `noise`.
pub open spec fn shade_spec(noise: int) -> VertexShade {
    VertexShade { elevation: elevation_of(noise) as i32, band: band_of(noise) }
}

/// Shades one mesh vertex from its noise sample.
pub fn shade_vertex(noise: i64) -> (r: VertexShade)
    requires
        -NOISE_LIMIT <= noise <= NOISE_LIMIT,
    ensures
        r == shade_spec(noise as int),
        r.elevation == elevation_of(noise as int),
{
    let g = 2 * noise;
    let band = if g > 800000 {
        ElevationBand::Peak
    } else if g > 300000 {
        ElevationBand::Highland
    } else if g < -800000 {
        ElevationBand::Abyss
    } else {
        ElevationBand::Meadow
    };
    proof {
        assert(-70000000 <= (noise * 70) / 1000 <= 70000000) by (nonlinear_arith)
            requires -1000000000 <= noise <= 1000000000;
    }
    let elevation = floor_div(noise * TERRAIN_HEIGHT, 1000) as i32;
    VertexShade { elevation, band }
}

/// Shades every vertex of the terrain mesh from its noise sample, or fails
/// with `NumericError` if a sample is not accepted.
pub fn shade_vertices(samples: &Vec<Option<i64>>) -> (r: Result<Vec<VertexShade>, GameError>)
    ensures
        (exists|k: int| 0 <= k < samples@.len() && !sample_ok(#[trigger] samples@[k]))
            ==> r == Err::<Vec<VertexShade>, GameError>(GameError::NumericError),
        (forall|k: int| 0 <= k < samples@.len() ==> sample_ok(#[trigger] samples@[k])) ==> r is Ok
            && r->Ok_0@ == samples@.map_values(|s: Option<i64>| shade_spec(s->0 as int)),
{
    let mut shades: Vec<VertexShade> = Vec::new();
    let mut k: usize = 0;
    while k < samples.len()
        invariant
            0 <= k <= samples@.len(),
            shades@.len() == k,
            forall|m: int| 0 <= m < k ==> sample_ok(#[trigger] samples@[m]),
            forall|m: int| 0 <= m < k ==> #[trigger] shades@[m] == shade_spec(samples@[m]->0 as int),
        decreases samples@.len() - k,
    {
        let noise = match samples[k] {
            Some(n) => n,
            None => {
                return Err(GameError::NumericError);
            },
        };
        if noise < -NOISE_LIMIT || noise > NOISE_LIMIT {
            return Err(GameError::NumericError);
        }
        shades.push(shade_vertex(noise));
        k += 1;
    }
    assert(shades@ =~= samples@.map_values(|s: Option<i64>| shade_spec(s->0 as int)));
    Ok(shades)
}

/// Starts a run: generates the `BOARD_SIZE_ROWS` by `BOARD_SIZE_COLS` board
/// from its noise samples and `rng`, and puts the player on its centre cell.
pub fn terrain_startup(samples: &Vec<Vec<Option<i64>>>, rng: &mut Random) -> (r: Result<Game, GameError>)
    ensures
        !covers(samples@, BOARD_SIZE_ROWS as int, BOARD_SIZE_COLS as int) ==> r == Err::<
            Game,
            GameError,
        >(GameError::InvalidDimensions),
        covers(samples@, BOARD_SIZE_ROWS as int, BOARD_SIZE_COLS as int) && !samples_ok(
            samples@,
            BOARD_SIZE_ROWS as int,
            BOARD_SIZE_COLS as int,
        ) ==> r == Err::<Game, GameError>(GameError::NumericError),
        covers(samples@, BOARD_SIZE_ROWS as int, BOARD_SIZE_COLS as int) && samples_ok(
            samples@,
            BOARD_SIZE_ROWS as int,
            BOARD_SIZE_COLS as int,
        ) ==> r is Ok && r->Ok_0.board.wf() && board_from_samples(
            r->Ok_0.board@,
            BOARD_SIZE_ROWS as int,
            BOARD_SIZE_COLS as int,
            samples@,
        ) && r->Ok_0.player == (Player {
            row: BOARD_SIZE_ROWS / 2,
            col: BOARD_SIZE_COLS / 2,
            move_cooldown: 0,
            facing: Facing::Up,
            anchor: r->Ok_0.board@[(BOARD_SIZE_ROWS / 2) as int][(BOARD_SIZE_COLS / 2) as int].position,
        }),
{
    let board = match generate(BOARD_SIZE_ROWS, BOARD_SIZE_COLS, samples, rng) {
        Ok(b) => b,
        Err(e) => {
            return Err(e);
        },
    };
    let player = match Player::spawn(&board, BOARD_SIZE_ROWS / 2, BOARD_SIZE_COLS / 2) {
        Ok(p) => p,
        Err(e) => {
            return Err(e);
        },
    };
    Ok(Game { board, player })
}

/// Generation is deterministic: samples and jitters that agree cell by cell
/// give the same board, cell for cell.
pub proof fn lemma_generation_deterministic(
    rows: int,
    cols: int,
    samples1: Seq<Vec<Option<i64>>>,
    samples2: Seq<Vec<Option<i64>>>,
    jitters1: Seq<Vec<i32>>,
    jitters2: Seq<Vec<i32>>,
)
    requires
        inputs_cover(rows, cols, samples1, jitters1),
        inputs_cover(rows, cols, samples2, jitters2),
        forall|i: int, j: int|
            0 <= i < rows && 0 <= j < cols ==> (#[trigger] samples1[i]@[j]) == samples2[i]@[j]
                && jitters1[i]@[j] == jitters2[i]@[j],
    ensures
        board_cells(rows, cols, samples1, jitters1) == board_cells(rows, cols, samples2, jitters2),
{
    let b1 = board_cells(rows, cols, samples1, jitters1);
    let b2 = board_cells(rows, cols, samples2, jitters2);
    assert forall|i: int| 0 <= i < rows implies #[trigger] b1[i] == b2[i] by {
        assert forall|j: int| 0 <= j < cols implies #[trigger] b1[i][j] == b2[i][j] by {
            assert(0 <= i < rows && 0 <= j < cols);
            assert(samples1[i]@[j] == samples2[i]@[j]);
            assert(jitters1[i]@[j] == jitters2[i]@[j]);
        }
        assert(b1[i] =~= b2[i]);
    }
    assert(b1 =~= b2);
}

} // verus!
