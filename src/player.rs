//! The continuous-position player: its movement state machine, its steering
//! and the chunk it stands in.
use vstd::prelude::*;

use crate::grid::{center_to_top_left_grid, grid_of, top_left_of, world_chunk, world_to_chunk, world_to_grid};
use crate::shared::{Cell, CellType, InputSnapshot};
use crate::terrain::Board;

verus! {

/// Distance walked in one tick, in world steps (2 units).
pub const PLAYER_SPEED: i32 = 2000;

/// Distance swum in one tick, in world steps (1.5 units).
pub const PLAYER_FISH_SPEED: i32 = 1500;

/// Factor on the speed while the run modifier is held.
pub const RUN_MULTIPLIER: i32 = 5;

/// Length of a jump, in milliseconds.
pub const PLAYER_JUMP_TIME: u64 = 300;

/// Length of each axis of a diagonal unit vector, in millionths (one over the
/// square root of two, rounded).
pub const DIAGONAL_PPM: i64 = 707107;

/// Movement state of the player.
#[derive(Clone, Copy, PartialEq, Eq, Structural, Debug, Default)]
pub enum PlayerState {
    #[default]
    Idle,
    Walk,
    /// A jump that began at the given clock time, in milliseconds.
    Jump(u64),
    Swim,
}

impl PlayerState {
    /// Idle or walking.
    pub open spec fn is_on_land(self) -> bool {
        self is Idle || self is Walk
    }

    /// Whether the player is idle or walking.
    pub fn on_land(&self) -> (r: bool)
        ensures
            r == self.is_on_land(),
    {
        match self {
            PlayerState::Idle => true,
            PlayerState::Walk => true,
            _ => false,
        }
    }

    /// Whether the player walks.
    pub fn walking(&self) -> (r: bool)
        ensures
            r == (*self == PlayerState::Walk),
    {
        *self == PlayerState::Walk
    }

    /// Whether the player swims.
    pub fn swimming(&self) -> (r: bool)
        ensures
            r == (*self == PlayerState::Swim),
    {
        *self == PlayerState::Swim
    }

    /// Whether the player is in a jump.
    pub fn jumping(&self) -> (r: bool)
        ensures
            r == (*self is Jump),
    {
        match self {
            PlayerState::Jump(_) => true,
            _ => false,
        }
    }

    /// The state after the player was found on ground (or not) at clock time
    /// `now`; see `fsm_next`.
    pub fn next_state(&self, is_ground: bool, now: u64) -> (r: PlayerState)
        ensures
            r == fsm_next(*self, is_ground, now),
    {
        match *self {
            PlayerState::Idle | PlayerState::Walk => {
                if is_ground {
                    *self
                } else {
                    PlayerState::Jump(now)
                }
            },
            PlayerState::Swim => {
                if is_ground {
                    PlayerState::Jump(now)
                } else {
                    PlayerState::Swim
                }
            },
            PlayerState::Jump(t0) => {
                if now >= t0 && now - t0 >= PLAYER_JUMP_TIME {
                    if is_ground {
                        PlayerState::Idle
                    } else {
                        PlayerState::Swim
                    }
                } else {
                    *self
                }
            },
        }
    }
}

/// The state machine's response to ground membership at clock time `now`:
/// leaving ground or reaching it starts a jump; a jump that has lasted
/// `PLAYER_JUMP_TIME` ends idle on ground and swimming off it.
pub open spec fn fsm_next(s: PlayerState, is_ground: bool, now: u64) -> PlayerState {
    match s {
        PlayerState::Idle | PlayerState::Walk => if is_ground {
            s
        } else {
            PlayerState::Jump(now)
        },
        PlayerState::Swim => if is_ground {
            PlayerState::Jump(now)
        } else {
            PlayerState::Swim
        },
        PlayerState::Jump(t0) => if now >= t0 + PLAYER_JUMP_TIME {
            if is_ground {
                PlayerState::Idle
            } else {
                PlayerState::Swim
            }
        } else {
            s
        },
    }
}

/// Whether rule `k` (of seven, `0 <= k < 7`) of the state machine's table applies to state `s`, ground
/// membership `g` and clock time `now`.
pub open spec fn rule_applies(k: int, s: PlayerState, g: bool, now: u64) -> bool {
    if k == 0 {
        s.is_on_land() && g
    } else if k == 1 {
        s.is_on_land() && !g
    } else if k == 2 {
        s is Swim && !g
    } else if k == 3 {
        s is Swim && g
    } else if k == 4 {
        s is Jump && now < s->Jump_0 + PLAYER_JUMP_TIME
    } else if k == 5 {
        s is Jump && now >= s->Jump_0 + PLAYER_JUMP_TIME && g
    } else if k == 6 {
        s is Jump && now >= s->Jump_0 + PLAYER_JUMP_TIME && !g
    } else {
        false
    }
}

/// The state that rule `k` leads to: staying, starting a jump at `now`,
/// landing idle, or swimming.
pub open spec fn rule_target(k: int, s: PlayerState, now: u64) -> PlayerState {
    if k == 1 || k == 3 {
        PlayerState::Jump(now)
    } else if k == 5 {
        PlayerState::Idle
    } else if k == 6 {
        PlayerState::Swim
    } else {
        s
    }
}

/// Every pair of a state and a ground membership (at any clock time) falls
/// under exactly one rule of the table, and the state machine follows that rule.
pub proof fn lemma_fsm_complete(s: PlayerState, g: bool, now: u64)
    ensures
        exists|k: int| 0 <= k < 7 && #[trigger] rule_applies(k, s, g, now),
        forall|k1: int, k2: int|
            rule_applies(k1, s, g, now) && rule_applies(k2, s, g, now) ==> k1 == k2,
        forall|k: int| #[trigger] rule_applies(k, s, g, now) ==> fsm_next(s, g, now) == rule_target(k, s, now),
{
    let k = match s {
        PlayerState::Idle | PlayerState::Walk => if g { 0int } else { 1int },
        PlayerState::Swim => if g { 3int } else { 2int },
        PlayerState::Jump(t0) => if now < t0 + PLAYER_JUMP_TIME {
            4int
        } else if g {
            5int
        } else {
            6int
        },
    };
    assert(rule_applies(k, s, g, now));
}

/// Direction along one axis: one for the positive key, minus one for the
/// negative key, zero for both or neither.
pub open spec fn axis(pos: bool, neg: bool) -> int {
    (if pos {
        1int
    } else {
        0int
    }) - (if neg {
        1int
    } else {
        0int
    })
}

/// Speed for the terrain and the run modifier, in world steps per tick.
pub open spec fn speed_of(on_land: bool, run: bool) -> int {
    (if on_land {
        PLAYER_SPEED as int
    } else {
        PLAYER_FISH_SPEED as int
    }) * (if run {
        RUN_MULTIPLIER as int
    } else {
        1int
    })
}

/// The movement of one tick: the held keys' direction, normalised and scaled
/// by the speed; none when the keys cancel out and the direction has no length.
/// A diagonal axis is `DIAGONAL_PPM` millionths of the speed, rounded down.
pub open spec fn movement_spec(input: InputSnapshot, on_land: bool) -> Option<(int, int)> {
    let dx = axis(input.right, input.left);
    let dy = axis(input.up, input.down);
    let sp = speed_of(on_land, input.run);
    if dx == 0 && dy == 0 {
        None
    } else if dx == 0 || dy == 0 {
        Some((dx * sp, dy * sp))
    } else {
        let d = sp * DIAGONAL_PPM / 1000000;
        Some((dx * d, dy * d))
    }
}

/// `r` is the vector `v`, or both are none.
pub open spec fn same_vector(r: Option<(i32, i32)>, v: Option<(int, int)>) -> bool {
    match (r, v) {
        (Some(a), Some(b)) => a.0 == b.0 && a.1 == b.1,
        (None, None) => true,
        _ => false,
    }
}

/// Movement vector of one tick for the held keys, in world steps; `None`
/// when the keys give no direction.
pub fn movement_vector(input: InputSnapshot, on_land: bool) -> (r: Option<(i32, i32)>)
    ensures
        same_vector(r, movement_spec(input, on_land)),
{
    let dx: i32 = (if input.right { 1i32 } else { 0i32 }) - (if input.left { 1i32 } else { 0i32 });
    let dy: i32 = (if input.up { 1i32 } else { 0i32 }) - (if input.down { 1i32 } else { 0i32 });
    let base: i32 = if on_land { PLAYER_SPEED } else { PLAYER_FISH_SPEED };
    let sp: i32 = if input.run { base * RUN_MULTIPLIER } else { base };
    if dx == 0 && dy == 0 {
        None
    } else if dx == 0 || dy == 0 {
        Some((dx * sp, dy * sp))
    } else {
        proof {
            assert(0 <= (sp as int) * 707107 / 1000000 <= 10000) by (nonlinear_arith)
                requires 0 <= sp <= 10000;
        }
        let d = ((sp as i64) * DIAGONAL_PPM / 1000000) as i32;
        Some((dx * d, dy * d))
    }
}

/// Position after moving by `v`, if the result stays representable.
pub open spec fn moved_by(x: int, y: int, v: Option<(int, int)>) -> Option<(int, int)> {
    match v {
        Some(d) => if i32::MIN <= x + d.0 <= i32::MAX && i32::MIN <= y + d.1 <= i32::MAX {
            Some((x + d.0, y + d.1))
        } else {
            None
        },
        None => None,
    }
}

/// Notification that the player entered the chunk `(chunk_x, chunk_y)`.
#[derive(Clone, Copy, Debug)]
pub struct PlayerChunkUpdateEvent(pub (i32, i32));

/// The chunk the player was last seen in.
#[derive(Clone, Copy, Debug, Default)]
pub struct CurrentPlayerChunkPosition(pub (i32, i32));

/// The tracker after seeing the player in `chunk`, and the notification that
/// this sends: one exactly when the chunk differs from the last one.
pub open spec fn chunk_update(
    c: CurrentPlayerChunkPosition,
    chunk: (i32, i32),
) -> (CurrentPlayerChunkPosition, Option<PlayerChunkUpdateEvent>) {
    if c.0 == chunk {
        (c, None)
    } else {
        (CurrentPlayerChunkPosition(chunk), Some(PlayerChunkUpdateEvent(chunk)))
    }
}

impl CurrentPlayerChunkPosition {
    /// Records that the player is in `chunk`; notifies when it changed.
    pub fn update(&mut self, chunk: (i32, i32)) -> (r: Option<PlayerChunkUpdateEvent>)
        ensures
            (*final(self), r) == chunk_update(*old(self), chunk),
    {
        let (old_x, old_y) = self.0;
        if old_x == chunk.0 && old_y == chunk.1 {
            return None;
        }
        self.0 = chunk;
        Some(PlayerChunkUpdateEvent(chunk))
    }
}

/// Whether the board cell under the world position `(x, y)` is ground; no
/// position off the board is.
pub open spec fn ground_under(cells: Seq<Seq<Cell>>, x: int, y: int) -> bool {
    let t = top_left_of(grid_of(x), grid_of(y));
    &&& 0 <= t.1 < cells.len()
    &&& 0 <= t.0 < cells[0].len()
    &&& cells[t.1][t.0].cell_type == CellType::Ground
}

/// Whether the board cell under the world position `(x, y)` is ground.
pub fn ground_at(board: &Board, x: i32, y: i32) -> (r: bool)
    requires
        board.wf(),
    ensures
        r == ground_under(board@, x as int, y as int),
{
    let (gx, gy) = world_to_grid(x, y);
    let (tx, ty) = center_to_top_left_grid(gx, gy);
    board.is_ground(ty, tx)
}

/// The player of the continuous model: its world position in steps, its
/// movement state, the clock in milliseconds, the direction of the last
/// steering `(x, y)` and the chunk it was last seen in.
#[derive(Clone, Copy, Debug)]
pub struct PlayerController {
    pub x: i32,
    pub y: i32,
    pub state: PlayerState,
    pub clock: u64,
    pub heading: (i8, i8),
    pub chunk: CurrentPlayerChunkPosition,
}

/// The controller after its state machine saw the ground under it at `now`.
pub open spec fn state_step(c: PlayerController, cells: Seq<Seq<Cell>>, now: u64) -> PlayerController {
    PlayerController {
        state: fsm_next(c.state, ground_under(cells, c.x as int, c.y as int), now),
        ..c
    }
}

/// The controller after steering by the held keys. A jump ignores the keys.
/// Otherwise held keys move the player by the tick's movement vector (not at
/// all when it has no direction or would leave the representable world) and
/// make it walk, or swim off land; with no key held it rests, or swims.
pub open spec fn input_step(c: PlayerController, input: InputSnapshot) -> PlayerController {
    if c.state is Jump {
        c
    } else if input.up || input.down || input.left || input.right {
        let on_land = c.state.is_on_land();
        let (x, y) = match moved_by(c.x as int, c.y as int, movement_spec(input, on_land)) {
            Some(q) => (q.0 as i32, q.1 as i32),
            None => (c.x, c.y),
        };
        PlayerController {
            x,
            y,
            state: if on_land {
                PlayerState::Walk
            } else {
                PlayerState::Swim
            },
            heading: (axis(input.right, input.left) as i8, axis(input.up, input.down) as i8),
            ..c
        }
    } else {
        PlayerController {
            state: if c.state.is_on_land() {
                PlayerState::Idle
            } else {
                PlayerState::Swim
            },
            ..c
        }
    }
}

/// The chunk of the controller's position.
pub open spec fn chunk_at(c: PlayerController) -> (i32, i32) {
    (world_chunk(c.x as int, c.y as int).0 as i32, world_chunk(c.x as int, c.y as int).1 as i32)
}

/// The controller after its chunk tracker saw it, and the notification sent.
pub open spec fn chunk_step(c: PlayerController) -> (PlayerController, Option<PlayerChunkUpdateEvent>) {
    let u = chunk_update(c.chunk, chunk_at(c));
    (PlayerController { chunk: u.0, ..c }, u.1)
}

/// Clock time after `dt` more milliseconds, stopping at the largest time.
pub open spec fn clock_after(clock: u64, dt: u64) -> u64 {
    if clock + dt > u64::MAX {
        u64::MAX
    } else {
        (clock + dt) as u64
    }
}

/// One tick of `dt` milliseconds: the clock advances; the state machine sees
/// the ground under the player; the keys steer; the chunk tracker sees the
/// new position.
pub open spec fn tick_spec(
    c: PlayerController,
    cells: Seq<Seq<Cell>>,
    dt: u64,
    input: InputSnapshot,
) -> (PlayerController, Option<PlayerChunkUpdateEvent>) {
    let now = clock_after(c.clock, dt);
    let c1 = state_step(PlayerController { clock: now, ..c }, cells, now);
    chunk_step(input_step(c1, input))
}

impl PlayerController {
    /// A resting player at `(x, y)`, at clock time zero, whose chunk tracker
    /// starts at chunk `(0, 0)`.
    pub fn new(x: i32, y: i32) -> (r: PlayerController)
        ensures
            r.x == x,
            r.y == y,
            r.state == PlayerState::Idle,
            r.clock == 0,
            r.heading == (0i8, 0i8),
            r.chunk.0 == (0i32, 0i32),
            jump_start_ok(r),
    {
        PlayerController {
            x,
            y,
            state: PlayerState::Idle,
            clock: 0,
            heading: (0, 0),
            chunk: CurrentPlayerChunkPosition((0, 0)),
        }
    }

    /// Runs the state machine on the ground under the player at the current clock.
    pub fn update_player_state(&mut self, board: &Board)
        requires
            board.wf(),
        ensures
            *final(self) == state_step(*old(self), board@, old(self).clock),
    {
        let is_ground = ground_at(board, self.x, self.y);
        self.state = self.state.next_state(is_ground, self.clock);
    }

    /// Steers the player by the held keys.
    pub fn handle_player_input(&mut self, input: InputSnapshot)
        ensures
            *final(self) == input_step(*old(self), input),
    {
        if self.state.jumping() {
            return;
        }
        let on_land = self.state.on_land();
        if input.up || input.down || input.left || input.right {
            match movement_vector(input, on_land) {
                Some((vx, vy)) => {
                    match (self.x.checked_add(vx), self.y.checked_add(vy)) {
                        (Some(nx), Some(ny)) => {
                            self.x = nx;
                            self.y = ny;
                        },
                        _ => {},
                    }
                },
                None => {},
            }
            let dx: i8 = (if input.right { 1i8 } else { 0i8 }) - (if input.left { 1i8 } else { 0i8 });
            let dy: i8 = (if input.up { 1i8 } else { 0i8 }) - (if input.down { 1i8 } else { 0i8 });
            self.heading = (dx, dy);
            self.state = if on_land {
                PlayerState::Walk
            } else {
                PlayerState::Swim
            };
        } else {
            self.state = if on_land {
                PlayerState::Idle
            } else {
                PlayerState::Swim
            };
        }
    }

    /// Tracks the chunk of the player's position; notifies when it changed.
    pub fn update_player_chunk_pos(&mut self) -> (r: Option<PlayerChunkUpdateEvent>)
        ensures
            (*final(self), r) == chunk_step(*old(self)),
    {
        let chunk = world_to_chunk(self.x, self.y);
        self.chunk.update(chunk)
    }

    /// Runs one tick of `dt` milliseconds with the keys of `input`.
    pub fn tick(&mut self, board: &Board, dt: u64, input: InputSnapshot) -> (r: Option<PlayerChunkUpdateEvent>)
        requires
            board.wf(),
        ensures
            (*final(self), r) == tick_spec(*old(self), board@, dt, input),
    {
        self.clock = self.clock.saturating_add(dt);
        self.update_player_state(board);
        self.handle_player_input(input);
        self.update_player_chunk_pos()
    }
}

/// A jump that began at `t0` lasts through every tick whose clock time is
/// less than `PLAYER_JUMP_TIME` after `t0`, and has ended, whatever the keys,
/// after the first tick whose clock time is at least that.
pub proof fn lemma_jump_timing(
    c: PlayerController,
    cells: Seq<Seq<Cell>>,
    dt: u64,
    input: InputSnapshot,
    t0: u64,
)
    requires
        c.state == PlayerState::Jump(t0),
    ensures
        clock_after(c.clock, dt) < t0 + PLAYER_JUMP_TIME ==> tick_spec(c, cells, dt, input).0.state
            == PlayerState::Jump(t0),
        clock_after(c.clock, dt) >= t0 + PLAYER_JUMP_TIME ==> !(tick_spec(c, cells, dt, input).0.state is Jump),
{
}

/// Keys that cancel out give no direction to move in: the tick leaves the
/// position where it was.
pub proof fn lemma_no_direction_keeps_position(
    c: PlayerController,
    cells: Seq<Seq<Cell>>,
    dt: u64,
    input: InputSnapshot,
)
    requires
        axis(input.right, input.left) == 0,
        axis(input.up, input.down) == 0,
    ensures
        tick_spec(c, cells, dt, input).0.x == c.x,
        tick_spec(c, cells, dt, input).0.y == c.y,
{
}

/// The notifications of a chunk tracker that sees the player in each chunk
/// of `chunks` in turn.
pub open spec fn chunk_events(c: CurrentPlayerChunkPosition, chunks: Seq<(i32, i32)>) -> Seq<
    Option<PlayerChunkUpdateEvent>,
>
    decreases chunks.len(),
{
    if chunks.len() == 0 {
        Seq::empty()
    } else {
        let u = chunk_update(c, chunks[0]);
        seq![u.1] + chunk_events(u.0, chunks.drop_first())
    }
}

/// A tracker that already holds `b` sends nothing while the player stays in `b`.
pub proof fn lemma_chunk_quiet(c: CurrentPlayerChunkPosition, chunks: Seq<(i32, i32)>, b: (i32, i32))
    requires
        c.0 == b,
        forall|k: int| 0 <= k < chunks.len() ==> chunks[k] == b,
    ensures
        chunk_events(c, chunks).len() == chunks.len(),
        forall|k: int| 0 <= k < chunks.len() ==> chunk_events(c, chunks)[k] is None,
    decreases chunks.len(),
{
    if chunks.len() > 0 {
        lemma_chunk_quiet(c, chunks.drop_first(), b);
        let rest = chunk_events(c, chunks.drop_first());
        assert(chunk_events(c, chunks) == seq![None::<PlayerChunkUpdateEvent>] + rest);
        assert forall|k: int| 0 <= k < chunks.len() implies chunk_events(c, chunks)[k] is None by {
            if k > 0 {
                assert(chunk_events(c, chunks)[k] == rest[k - 1]);
            }
        }
    }
}

/// Crossing into chunk `b` and staying there sends exactly one notification,
/// for `b`, on the crossing.
pub proof fn lemma_chunk_event_once(c: CurrentPlayerChunkPosition, chunks: Seq<(i32, i32)>, b: (i32, i32))
    requires
        c.0 != b,
        chunks.len() >= 1,
        forall|k: int| 0 <= k < chunks.len() ==> chunks[k] == b,
    ensures
        chunk_events(c, chunks).len() == chunks.len(),
        chunk_events(c, chunks)[0] == Some(PlayerChunkUpdateEvent(b)),
        forall|k: int| 1 <= k < chunks.len() ==> chunk_events(c, chunks)[k] is None,
{
    let u = chunk_update(c, chunks[0]);
    lemma_chunk_quiet(u.0, chunks.drop_first(), b);
    let rest = chunk_events(u.0, chunks.drop_first());
    assert(chunk_events(c, chunks) == seq![u.1] + rest);
    assert forall|k: int| 1 <= k < chunks.len() implies chunk_events(c, chunks)[k] is None by {
        assert(chunk_events(c, chunks)[k] == rest[k - 1]);
    }
}

/// A jump, if the controller is in one, did not start after the clock.
pub open spec fn jump_start_ok(c: PlayerController) -> bool {
    c.state is Jump ==> c.state->Jump_0 <= c.clock
}

/// The controller after one tick per entry of `steps`, each entry the tick's
/// length and its keys.
pub open spec fn ticks_spec(
    c: PlayerController,
    cells: Seq<Seq<Cell>>,
    steps: Seq<(u64, InputSnapshot)>,
) -> PlayerController
    decreases steps.len(),
{
    if steps.len() == 0 {
        c
    } else {
        let s = steps[0];
        ticks_spec(tick_spec(c, cells, s.0, s.1).0, cells, steps.drop_first())
    }
}

/// A jump that a tick begins starts at that tick's clock time, and a tick
/// keeps every jump's start at or before the clock.
pub proof fn lemma_tick_jump_start(c: PlayerController, cells: Seq<Seq<Cell>>, dt: u64, input: InputSnapshot)
    requires
        jump_start_ok(c),
    ensures
        jump_start_ok(tick_spec(c, cells, dt, input).0),
        !(c.state is Jump) && tick_spec(c, cells, dt, input).0.state is Jump ==> tick_spec(
            c,
            cells,
            dt,
            input,
        ).0.state->Jump_0 == tick_spec(c, cells, dt, input).0.clock,
{
}

/// Over any sequence of ticks, from a controller whose jump (if any) did not
/// start after its clock, the state stays one of the four states and a jump
/// never starts after the clock.
pub proof fn lemma_ticks_jump_start(c: PlayerController, cells: Seq<Seq<Cell>>, steps: Seq<(u64, InputSnapshot)>)
    requires
        jump_start_ok(c),
    ensures
        jump_start_ok(ticks_spec(c, cells, steps)),
    decreases steps.len(),
{
    if steps.len() > 0 {
        let s = steps[0];
        lemma_tick_jump_start(c, cells, s.0, s.1);
        lemma_ticks_jump_start(tick_spec(c, cells, s.0, s.1).0, cells, steps.drop_first());
    }
}

} // verus!
