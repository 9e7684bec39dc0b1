use game::constants::{BOARD_SIZE_COLS, BOARD_SIZE_ROWS, TILE_SIZE, MOVE_COOLDOWN_MS};
use game::grid::{center_to_top_left_grid, grid_to_chunk, world_to_chunk, world_to_grid};
use game::player::{
    ground_at, movement_vector, CurrentPlayerChunkPosition, PlayerController, PlayerState, PLAYER_JUMP_TIME,
};
use game::shared::{Facing, GameError, InputSnapshot, Player, Random};
use game::terrain::{generate_board, terrain_startup, Board};

fn keys(up: bool, down: bool, left: bool, right: bool) -> InputSnapshot {
    InputSnapshot { up, down, left, right, run: false }
}

fn none() -> InputSnapshot {
    keys(false, false, false, false)
}

/// A 14 by 21 board, ground everywhere but at the given cells.
fn board_with_water(water: &[(usize, usize)]) -> Board {
    let mut samples = vec![vec![Some(1i64); BOARD_SIZE_COLS]; BOARD_SIZE_ROWS];
    for (r, c) in water {
        samples[*r][*c] = Some(-1);
    }
    let jitters: Vec<Vec<i32>> = (0..BOARD_SIZE_ROWS)
        .map(|i| (0..BOARD_SIZE_COLS).map(|j| (i * 3 + j) as i32).collect())
        .collect();
    generate_board(BOARD_SIZE_ROWS, BOARD_SIZE_COLS, &samples, &jitters).unwrap()
}

#[test]
fn grid_pressing_right_moves_one_column() {
    let samples = vec![vec![Some(1i64); BOARD_SIZE_COLS]; BOARD_SIZE_ROWS];
    let mut rng = Random::for_run(true).unwrap();
    let mut game = terrain_startup(&samples, &mut rng).unwrap();
    assert_eq!((game.player.row, game.player.col), (7, 10));
    let moved = game.player.step(&game.board, 16, keys(false, false, false, true));
    assert!(moved);
    assert_eq!((game.player.row, game.player.col), (7, 11));
    let cell = game.board.cell_at(7, 11).unwrap();
    assert_eq!(game.player.anchor, cell.position);
    assert_eq!(game.player.anchor.y, cell.position.y);
    assert_eq!(game.player.facing, Facing::Right);
    assert_eq!(game.player.move_cooldown, MOVE_COOLDOWN_MS);
}

#[test]
fn grid_up_at_top_row_stays() {
    let board = board_with_water(&[]);
    let mut p = Player::spawn(&board, 13, 4).unwrap();
    for _ in 0..10 {
        let moved = p.step(&board, 1000, keys(true, false, false, false));
        assert!(!moved);
        assert_eq!(p.row, 13);
        assert_eq!(p.col, 4);
    }
}

#[test]
fn grid_left_at_edge_is_no_op() {
    let board = board_with_water(&[]);
    let mut p = Player::spawn(&board, 0, 0).unwrap();
    assert!(!p.step(&board, 1000, keys(false, true, true, false)));
    assert_eq!((p.row, p.col), (0, 0));
    assert_eq!(p.move_cooldown, 0);
}

#[test]
fn grid_cooldown_blocks_steps() {
    let board = board_with_water(&[]);
    let mut p = Player::spawn(&board, 5, 5).unwrap();
    assert!(p.step(&board, 0, keys(true, false, false, false)));
    assert_eq!(p.row, 6);
    assert!(!p.step(&board, 100, keys(true, false, false, false)));
    assert_eq!(p.row, 6);
    assert_eq!(p.move_cooldown, MOVE_COOLDOWN_MS - 100);
    assert!(!p.step(&board, 199, keys(true, false, false, false)));
    assert_eq!(p.move_cooldown, 1);
    assert!(p.step(&board, 1, keys(true, false, false, false)));
    assert_eq!(p.row, 7);
}

#[test]
fn grid_diagonal_and_facing_priority() {
    let board = board_with_water(&[]);
    let mut p = Player::spawn(&board, 5, 5).unwrap();
    assert!(p.step(&board, 0, keys(true, false, true, false)));
    assert_eq!((p.row, p.col), (6, 4));
    assert_eq!(p.facing, Facing::Left);
    assert_eq!(p.anchor, board.cell_at(6, 4).unwrap().position);
    p.move_cooldown = 0;
    assert!(p.step(&board, 0, keys(false, true, false, true)));
    assert_eq!((p.row, p.col), (5, 5));
    assert_eq!(p.facing, Facing::Right);
}

#[test]
fn grid_opposite_keys_cancel() {
    let board = board_with_water(&[]);
    let mut p = Player::spawn(&board, 5, 5).unwrap();
    assert!(!p.step(&board, 0, keys(true, true, false, false)));
    assert_eq!((p.row, p.col), (5, 5));
    assert_eq!(p.facing, Facing::Up);
}

#[test]
fn spawn_outside_board_fails() {
    let board = board_with_water(&[]);
    assert_eq!(Player::spawn(&board, 14, 0).err(), Some(GameError::OutOfBounds));
    assert_eq!(Player::spawn(&board, 0, 21).err(), Some(GameError::OutOfBounds));
}

#[test]
fn world_grid_and_chunk_transforms() {
    assert_eq!(world_to_grid(0, 0), (0, 0));
    assert_eq!(world_to_grid(TILE_SIZE - 1, -1), (0, -1));
    assert_eq!(world_to_grid(-TILE_SIZE, TILE_SIZE), (-1, 1));
    assert_eq!(world_to_grid(-TILE_SIZE - 1, 0), (-2, 0));
    assert_eq!(center_to_top_left_grid(0, 0), (10, 7));
    assert_eq!(center_to_top_left_grid(-10, 7), (0, 0));
    assert_eq!(grid_to_chunk(6, 6), (0, 0));
    assert_eq!(grid_to_chunk(7, 0), (1, 0));
    assert_eq!(grid_to_chunk(-1, 14), (-1, 2));
    assert_eq!(world_to_chunk(0, 0), (1, 1));
    assert_eq!(world_to_chunk(i32::MIN, i32::MAX), (-9586, -9586));
}

#[test]
fn ground_at_reads_cell_under_position() {
    let board = board_with_water(&[(7, 11)]);
    assert!(ground_at(&board, 0, 0));
    assert!(!ground_at(&board, TILE_SIZE, 0));
    assert!(ground_at(&board, TILE_SIZE, TILE_SIZE));
    assert!(!ground_at(&board, 20 * TILE_SIZE, 0));
}

#[test]
fn state_predicates() {
    assert!(PlayerState::Idle.on_land());
    assert!(PlayerState::Walk.on_land());
    assert!(!PlayerState::Swim.on_land());
    assert!(!PlayerState::Jump(3).on_land());
    assert!(PlayerState::Walk.walking());
    assert!(!PlayerState::Idle.walking());
    assert!(PlayerState::Swim.swimming());
    assert!(PlayerState::Jump(0).jumping());
    assert!(!PlayerState::Swim.jumping());
    assert_eq!(PlayerState::default(), PlayerState::Idle);
}

#[test]
fn every_state_and_membership_has_one_transition() {
    let states = [PlayerState::Idle, PlayerState::Walk, PlayerState::Swim, PlayerState::Jump(1000)];
    let expected = [
        (PlayerState::Idle, PlayerState::Jump(1100)),
        (PlayerState::Walk, PlayerState::Jump(1100)),
        (PlayerState::Jump(1100), PlayerState::Swim),
        (PlayerState::Jump(1000), PlayerState::Jump(1000)),
    ];
    for (s, (on_ground, off_ground)) in states.iter().zip(expected.iter()) {
        assert_eq!(s.next_state(true, 1100), *on_ground);
        assert_eq!(s.next_state(false, 1100), *off_ground);
    }
    assert_eq!(PlayerState::Jump(1000).next_state(true, 1300), PlayerState::Idle);
    assert_eq!(PlayerState::Jump(1000).next_state(false, 1300), PlayerState::Swim);
}

#[test]
fn jump_resolves_exactly_at_duration() {
    let board = board_with_water(&[]);
    let mut c = PlayerController::new(0, 0);
    c.state = PlayerState::Jump(0);
    c.tick(&board, PLAYER_JUMP_TIME - 1, keys(true, false, false, false));
    assert_eq!(c.state, PlayerState::Jump(0));
    assert_eq!((c.x, c.y), (0, 0));
    c.tick(&board, 1, none());
    assert_eq!(c.clock, PLAYER_JUMP_TIME);
    assert_eq!(c.state, PlayerState::Idle);
}

#[test]
fn cancelling_keys_leave_position_unchanged() {
    let board = board_with_water(&[]);
    let mut c = PlayerController::new(500, 700);
    c.tick(&board, 16, keys(true, true, false, false));
    assert_eq!((c.x, c.y), (500, 700));
    assert_eq!(c.state, PlayerState::Walk);
    c.tick(&board, 16, keys(true, true, true, true));
    assert_eq!((c.x, c.y), (500, 700));
    assert!(movement_vector(keys(false, false, true, true), true).is_none());
}

#[test]
fn move_leaving_representable_world_is_dropped() {
    let board = board_with_water(&[]);
    let mut c = PlayerController::new(i32::MAX - 10, 0);
    c.state = PlayerState::Swim;
    c.tick(&board, 16, keys(false, false, false, true));
    assert_eq!((c.x, c.y), (i32::MAX - 10, 0));
    assert_eq!(c.state, PlayerState::Swim);
}

#[test]
fn movement_vectors() {
    assert_eq!(movement_vector(keys(false, false, false, true), true), Some((2000, 0)));
    assert_eq!(movement_vector(keys(false, true, false, false), false), Some((0, -1500)));
    assert_eq!(movement_vector(keys(true, false, false, true), true), Some((1414, 1414)));
    let run = InputSnapshot { up: false, down: true, left: true, right: false, run: true };
    assert_eq!(movement_vector(run, true), Some((-7071, -7071)));
    assert_eq!(movement_vector(InputSnapshot { run: true, ..keys(true, false, false, false) }, false), Some((0, 7500)));
    assert_eq!(movement_vector(none(), true), None);
}

#[test]
fn walking_onto_water_jumps_then_swims() {
    let board = board_with_water(&[(7, 11)]);
    let mut c = PlayerController::new(TILE_SIZE / 2, TILE_SIZE / 2);
    let right = keys(false, false, false, true);
    let mut ticks = 0;
    while c.x < TILE_SIZE {
        c.tick(&board, 10, right);
        assert_eq!(c.state, PlayerState::Walk);
        ticks += 1;
    }
    assert_eq!(ticks, 8);
    assert_eq!(c.x, TILE_SIZE);
    c.tick(&board, 10, right);
    let t0 = c.clock;
    assert_eq!(c.state, PlayerState::Jump(t0));
    assert_eq!(c.x, TILE_SIZE);
    c.tick(&board, 290, right);
    assert_eq!(c.state, PlayerState::Jump(t0));
    assert_eq!(c.x, TILE_SIZE);
    c.tick(&board, 10, none());
    assert_eq!(c.clock - t0, PLAYER_JUMP_TIME);
    assert_eq!(c.state, PlayerState::Swim);
    c.tick(&board, 10, right);
    assert_eq!(c.state, PlayerState::Swim);
    assert_eq!(c.x, TILE_SIZE + 1500);
}

#[test]
fn chunk_event_fires_once_per_crossing() {
    let mut tracker = CurrentPlayerChunkPosition::default();
    let ev = tracker.update((1, 0)).unwrap();
    assert_eq!(ev.0, (1, 0));
    assert_eq!(tracker.0, (1, 0));
    assert!(tracker.update((1, 0)).is_none());
    assert!(tracker.update((1, 0)).is_none());
}

#[test]
fn controller_reports_chunk_crossing_once() {
    let board = board_with_water(&[]);
    let mut c = PlayerController::new(-98000, 64000);
    assert_eq!(world_to_chunk(c.x, c.y), (0, 0));
    assert!(c.tick(&board, 16, none()).is_none());
    let right = keys(false, false, false, true);
    let ev = c.tick(&board, 16, right).unwrap();
    assert_eq!(ev.0, (1, 0));
    assert_eq!(c.chunk.0, (1, 0));
    for _ in 0..20 {
        assert!(c.tick(&board, 16, right).is_none());
    }
    assert_eq!(world_to_chunk(c.x, c.y), (1, 0));
}

#[test]
fn heading_follows_keys() {
    let board = board_with_water(&[]);
    let mut c = PlayerController::new(0, 0);
    c.tick(&board, 16, keys(false, true, true, false));
    assert_eq!(c.heading, (-1, -1));
    c.tick(&board, 16, none());
    assert_eq!(c.heading, (-1, -1));
    assert_eq!(c.state, PlayerState::Idle);
}
