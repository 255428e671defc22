use flappy::movable::{IVec3, Movable};
use flappy::pipe::{
    block_at, choose_gap, init_timer, pipe_movable, spawn, stop_pipes, Pipe, PipeBlock,
    BLOCK_HEIGHT, BLOCK_WIDTH, COLUMN_SIZE, DESPAWN_X, EMPTY_COLUMNS, PIPE_SPRITE_HEIGHT,
    PIPE_SPRITE_WIDTH, SPAWN_INTERVAL, SPAWN_X, SPEED,
};
use flappy::{RESOLUTION_X, RESOLUTION_Y, SCALE_DEN, SCALE_NUM};

fn columns_of(pipe: &Pipe) -> Vec<u32> {
    pipe.blocks().iter().map(|block| block.column).collect()
}

#[test]
fn the_lengths_of_an_obstacle_hang_together() {
    assert_eq!(BLOCK_WIDTH * SCALE_DEN, SCALE_NUM * PIPE_SPRITE_WIDTH);
    assert_eq!(BLOCK_HEIGHT * SCALE_DEN, SCALE_NUM * PIPE_SPRITE_HEIGHT);
    assert_eq!(COLUMN_SIZE as i32 * BLOCK_HEIGHT, RESOLUTION_Y);
    assert_eq!(2 * SPAWN_X, RESOLUTION_X + BLOCK_WIDTH);
    assert_eq!(DESPAWN_X, -SPAWN_X);
    assert_eq!(COLUMN_SIZE, 10);
    assert_eq!(EMPTY_COLUMNS, 3);
    assert_eq!(SPAWN_INTERVAL, 2000);
    assert_eq!(SPEED, 200);
}

#[test]
fn blocks_are_stacked_from_the_bottom_edge() {
    assert_eq!(block_at(0), PipeBlock { column: 0, y: -324 });
    assert_eq!(block_at(1), PipeBlock { column: 1, y: -252 });
    assert_eq!(block_at(4), PipeBlock { column: 4, y: -36 });
    assert_eq!(block_at(5), PipeBlock { column: 5, y: 36 });
    assert_eq!(block_at(9), PipeBlock { column: 9, y: 324 });
}

#[test]
fn a_gap_in_the_middle_leaves_blocks_on_both_sides() {
    let pipe = Pipe::with_gap(4);
    assert_eq!(pipe.empty_idx(), 4);
    assert_eq!(columns_of(&pipe), vec![0, 1, 2, 3, 7, 8, 9]);
    assert_eq!(
        pipe.blocks().clone(),
        vec![
            PipeBlock { column: 0, y: -324 },
            PipeBlock { column: 1, y: -252 },
            PipeBlock { column: 2, y: -180 },
            PipeBlock { column: 3, y: -108 },
            PipeBlock { column: 7, y: 180 },
            PipeBlock { column: 8, y: 252 },
            PipeBlock { column: 9, y: 324 },
        ]
    );
}

#[test]
fn the_lowest_and_highest_gaps_that_are_drawn() {
    assert_eq!(columns_of(&Pipe::with_gap(1)), vec![0, 4, 5, 6, 7, 8, 9]);
    assert_eq!(columns_of(&Pipe::with_gap(6)), vec![0, 1, 2, 3, 4, 5, 9]);
}

#[test]
fn a_gap_at_either_end_of_the_columns() {
    assert_eq!(columns_of(&Pipe::with_gap(0)), vec![3, 4, 5, 6, 7, 8, 9]);
    assert_eq!(columns_of(&Pipe::with_gap(7)), vec![0, 1, 2, 3, 4, 5, 6]);
}

#[test]
fn a_gap_that_reaches_beyond_the_columns_takes_fewer_blocks() {
    assert_eq!(columns_of(&Pipe::with_gap(8)), vec![0, 1, 2, 3, 4, 5, 6, 7]);
    assert_eq!(columns_of(&Pipe::with_gap(9)), vec![0, 1, 2, 3, 4, 5, 6, 7, 8]);
}

#[test]
fn a_gap_beyond_the_columns_takes_none() {
    let all: Vec<u32> = (0..10).collect();
    assert_eq!(columns_of(&Pipe::with_gap(10)), all);
    assert_eq!(columns_of(&Pipe::with_gap(u32::MAX - 1)), all);
    assert_eq!(columns_of(&Pipe::with_gap(u32::MAX)), all);
    assert_eq!(Pipe::with_gap(u32::MAX).empty_idx(), u32::MAX);
}

#[test]
fn every_block_is_the_block_of_its_column() {
    for empty_idx in 0..12 {
        let pipe = Pipe::with_gap(empty_idx);
        for block in pipe.blocks() {
            assert_eq!(*block, block_at(block.column));
            let in_gap = block.column >= empty_idx && block.column < empty_idx + EMPTY_COLUMNS;
            assert!(!in_gap);
        }
    }
}

#[test]
fn the_gap_that_is_drawn_lies_among_the_columns() {
    let mut seen = [false; 10];
    for _ in 0..2000 {
        let empty_idx = choose_gap();
        assert!(empty_idx >= 1);
        assert!(empty_idx < COLUMN_SIZE - EMPTY_COLUMNS);
        assert!(empty_idx + EMPTY_COLUMNS <= COLUMN_SIZE);
        seen[empty_idx as usize] = true;
    }
    assert_eq!(
        seen,
        [false, true, true, true, true, true, true, false, false, false]
    );
}

#[test]
fn the_first_obstacle_is_due_at_once() {
    let timer = init_timer();
    assert!(timer.just_finished());
    assert_eq!(timer.times_finished_this_tick(), 1);
    assert_eq!(timer.elapsed_ns(), 0);
    assert_eq!(timer.interval_ns(), 2_000_000_000);
}

#[test]
fn an_obstacle_comes_every_two_seconds() {
    let mut timer = init_timer();
    let mut spawned_in = Vec::new();
    for frame in 0..9 {
        if let Some(pipe) = spawn(&mut timer, 500_000_000) {
            spawned_in.push(frame);
            assert!(pipe.empty_idx() >= 1 && pipe.empty_idx() <= 6);
            assert_eq!(pipe.blocks().len(), 7);
            assert_eq!(
                columns_of(&pipe),
                columns_of(&Pipe::with_gap(pipe.empty_idx()))
            );
        }
    }
    assert_eq!(spawned_in, vec![0, 4, 8]);
}

#[test]
fn one_obstacle_comes_however_many_intervals_a_frame_took() {
    let mut timer = init_timer();
    assert!(spawn(&mut timer, 7_000_000_000).is_some());
    assert_eq!(timer.times_finished_this_tick(), 3);
    assert_eq!(timer.elapsed_ns(), 1_000_000_000);
    assert!(spawn(&mut timer, 100).is_some());
    assert!(spawn(&mut timer, 100).is_none());
}

#[test]
fn the_spawner_ticks_its_timer_after_it_looked() {
    let mut timer = init_timer();
    assert!(spawn(&mut timer, 1_999_999_999).is_some());
    assert_eq!(timer.elapsed_ns(), 1_999_999_999);
    assert!(spawn(&mut timer, 1).is_none());
    assert!(timer.just_finished());
    assert!(spawn(&mut timer, 0).is_some());
    assert!(!timer.just_finished());
}

#[test]
fn a_new_obstacle_moves_left() {
    let movable = pipe_movable();
    assert_eq!(movable.velocity, IVec3 { x: -200, y: 0, z: 0 });
    assert_eq!(movable.acceleration, IVec3 { x: 0, y: 0, z: 0 });
}

#[test]
fn obstacles_are_set_back_when_play_ends() {
    let movable = stop_pipes();
    assert_eq!(movable.velocity, IVec3 { x: 0, y: 0, z: 0 });
    assert_eq!(movable.acceleration, IVec3 { x: 0, y: 0, z: 0 });
    assert_eq!(movable, Movable::at_rest());
}

#[test]
fn an_obstacle_that_comes_stands_at_the_right_edge_and_moves_left() {
    let mut timer = init_timer();
    let pipe = spawn(&mut timer, 16_000_000).expect("the first obstacle is due at once");
    assert_eq!(pipe.x(), 676);
    assert_eq!(2 * pipe.x() - BLOCK_WIDTH, RESOLUTION_X);
    assert_eq!(pipe.movable().velocity, IVec3 { x: -200, y: 0, z: 0 });
    assert_eq!(pipe.movable().acceleration, IVec3 { x: 0, y: 0, z: 0 });
    assert_eq!(pipe.movable(), pipe_movable());
    let made = Pipe::with_gap(3);
    assert_eq!(made.x(), SPAWN_X);
    assert_eq!(made.movable(), pipe_movable());
}
