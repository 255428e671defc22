use crate::movable::{IVec3, Movable};
use crate::timer::{RepeatingTimer, TimerState, NANOS_PER_MILLI};
use crate::{RESOLUTION_X, RESOLUTION_Y, SCALE_DEN, SCALE_NUM};
use rand::Rng;
use vstd::prelude::*;

verus! {

/// Width of the pipe sprite, in its own pixels.
pub const PIPE_SPRITE_WIDTH: i32 = 16;

/// Height of the pipe sprite, in its own pixels.
pub const PIPE_SPRITE_HEIGHT: i32 = 16;

/// Width of one block on screen: the sprite's width, enlarged.
pub const BLOCK_WIDTH: i32 = 72;

/// Height of one block on screen: the sprite's height, enlarged.
pub const BLOCK_HEIGHT: i32 = 72;

/// How many blocks fit into the height of the play field.
pub const COLUMN_SIZE: u32 = 10;

/// How many neighbouring blocks an obstacle leaves out for the player to pass.
pub const EMPTY_COLUMNS: u32 = 3;

/// Milliseconds between two obstacles.
pub const SPAWN_INTERVAL: u64 = 2000;

/// Speed at which an obstacle moves to the left, in pixels per second.
pub const SPEED: i32 = 200;

/// Where a new obstacle starts: just beyond the right edge of the play field.
pub const SPAWN_X: i32 = 676;

/// An obstacle further left than this has left the play field.
pub const DESPAWN_X: i32 = -676;

/// How the lengths above hang together: a block is the enlarged sprite, the
/// blocks of one obstacle fill the height of the play field, and an obstacle
/// comes and goes where it is just out of sight on either side.
pub proof fn lemma_pipe_geometry()
    ensures
        BLOCK_WIDTH * SCALE_DEN == SCALE_NUM * PIPE_SPRITE_WIDTH,
        BLOCK_HEIGHT * SCALE_DEN == SCALE_NUM * PIPE_SPRITE_HEIGHT,
        COLUMN_SIZE * BLOCK_HEIGHT == RESOLUTION_Y,
        2 * SPAWN_X == RESOLUTION_X + BLOCK_WIDTH,
        DESPAWN_X == -SPAWN_X,
{
}

/// One blocking rectangle of an obstacle.
#[derive(Debug, Clone, Copy, PartialEq, Eq, Structural)]
pub struct PipeBlock {
    /// Which block it is, counted from the bottom of the play field.
    pub column: u32,
    /// Height of its centre, relative to the obstacle it belongs to.
    pub y: i32,
}

/// Whether the gap that begins at `empty_idx` leaves out `column`.
pub open spec fn in_gap(empty_idx: int, column: int) -> bool {
    empty_idx <= column < empty_idx + EMPTY_COLUMNS
}

/// Whether the whole gap that begins at `empty_idx` lies among the columns.
pub open spec fn gap_fits(empty_idx: int) -> bool {
    0 <= empty_idx && empty_idx + EMPTY_COLUMNS <= COLUMN_SIZE
}

/// The places at which a new obstacle may have its gap begin.
pub open spec fn gap_allowed(empty_idx: int) -> bool {
    1 <= empty_idx < COLUMN_SIZE - EMPTY_COLUMNS
}

/// Height of the centre of the block in `column`: the blocks are stacked from the
/// bottom edge of the play field upwards.
pub open spec fn block_y(column: int) -> int {
    BLOCK_HEIGHT * column + BLOCK_HEIGHT / 2 - RESOLUTION_Y / 2
}

/// The block that stands in `column`.
pub open spec fn block_in(column: int) -> PipeBlock {
    PipeBlock { column: column as u32, y: block_y(column) as i32 }
}

/// The first `n` columns, from the bottom.
pub open spec fn columns(n: nat) -> Seq<int> {
    Seq::new(n, |c: int| c)
}

/// The test that a column passes when the gap leaves it standing.
pub open spec fn outside_gap(empty_idx: int) -> spec_fn(int) -> bool {
    |c: int| !in_gap(empty_idx, c)
}

/// The blocks among the first `n` columns of an obstacle whose gap begins at
/// `empty_idx`: one for each column outside the gap, from the bottom upwards.
pub open spec fn blocks_below(empty_idx: int, n: nat) -> Seq<PipeBlock> {
    columns(n).filter(outside_gap(empty_idx)).map_values(|c: int| block_in(c))
}

/// The blocks of an obstacle whose gap begins at `empty_idx`.
pub open spec fn layout(empty_idx: int) -> Seq<PipeBlock> {
    blocks_below(empty_idx, COLUMN_SIZE as nat)
}

/// How many of the first `n` columns the gap leaves out.
pub open spec fn gap_columns_below(empty_idx: int, n: int) -> int {
    if n <= empty_idx {
        0
    } else if n <= empty_idx + EMPTY_COLUMNS {
        n - empty_idx
    } else {
        EMPTY_COLUMNS as int
    }
}

/// One more column adds its block, unless the gap leaves it out.
pub proof fn lemma_blocks_below_step(empty_idx: int, n: nat)
    ensures
        blocks_below(empty_idx, n + 1) == if in_gap(empty_idx, n as int) {
            blocks_below(empty_idx, n)
        } else {
            blocks_below(empty_idx, n).push(block_in(n as int))
        },
        blocks_below(empty_idx, 0) == Seq::<PipeBlock>::empty(),
{
    let pred = outside_gap(empty_idx);
    assert(columns(n + 1) =~= columns(n).push(n as int));
    columns(n).lemma_filter_push(n as int, pred);
    if !in_gap(empty_idx, n as int) {
        assert(blocks_below(empty_idx, n + 1) =~= blocks_below(empty_idx, n).push(
            block_in(n as int),
        ));
    }
    assert(columns(0).filter(pred).len() == 0) by {
        columns(0).lemma_filter_len(pred);
    }
    assert(blocks_below(empty_idx, 0) =~= Seq::<PipeBlock>::empty());
}

/// The column of the block that stands at place `k` of an obstacle, counted from
/// the bottom: the blocks above the gap are shifted up by its width.
pub open spec fn column_of(empty_idx: int, k: int) -> int {
    if k < empty_idx {
        k
    } else {
        k + EMPTY_COLUMNS
    }
}

/// What the blocks among the first `n` columns are, one by one: as many as the
/// gap leaves of those columns, each in the column that its place gives.
pub proof fn lemma_blocks_below_index(empty_idx: int, n: nat)
    requires
        0 <= empty_idx,
    ensures
        blocks_below(empty_idx, n).len() == n - gap_columns_below(empty_idx, n as int),
        forall|k: int|
            0 <= k < blocks_below(empty_idx, n).len() ==> #[trigger] blocks_below(empty_idx, n)[k]
                == block_in(column_of(empty_idx, k)),
    decreases n,
{
    if n == 0 {
        lemma_blocks_below_step(empty_idx, 0);
    } else {
        let m = (n - 1) as nat;
        lemma_blocks_below_index(empty_idx, m);
        lemma_blocks_below_step(empty_idx, m);
    }
}

/// What an obstacle is made of, when its whole gap lies among the columns: one
/// block for every column but those of the gap, from the bottom upwards, so that
/// the gap is free and nothing else is.
pub proof fn lemma_layout(empty_idx: int)
    requires
        gap_fits(empty_idx),
    ensures
        layout(empty_idx).len() == COLUMN_SIZE - EMPTY_COLUMNS,
        forall|k: int|
            0 <= k < layout(empty_idx).len() ==> #[trigger] layout(empty_idx)[k] == block_in(
                column_of(empty_idx, k),
            ),
        forall|k: int|
            0 <= k < layout(empty_idx).len() ==> 0 <= column_of(empty_idx, k) < COLUMN_SIZE
                && !in_gap(empty_idx, column_of(empty_idx, k)),
        forall|c: int|
            0 <= c < COLUMN_SIZE && !in_gap(empty_idx, c) ==> exists|k: int|
                0 <= k < layout(empty_idx).len() && #[trigger] column_of(empty_idx, k) == c,
{
    lemma_blocks_below_index(empty_idx, COLUMN_SIZE as nat);
    assert forall|c: int| 0 <= c < COLUMN_SIZE && !in_gap(empty_idx, c) implies exists|k: int|
        0 <= k < layout(empty_idx).len() && #[trigger] column_of(empty_idx, k) == c by {
        let k = if c < empty_idx {
            c
        } else {
            c - EMPTY_COLUMNS
        };
        assert(column_of(empty_idx, k) == c);
    }
}

/// An obstacle: a stack of blocks with one gap, moving as one.
#[derive(Debug)]
pub struct Pipe {
    empty_idx: u32,
    blocks: Vec<PipeBlock>,
    x: i32,
    movable: Movable,
}

impl Pipe {
    /// The column at which the gap begins.
    pub closed spec fn spec_empty_idx(&self) -> int {
        self.empty_idx as int
    }

    /// The blocks, from the bottom upwards.
    pub closed spec fn spec_blocks(&self) -> Seq<PipeBlock> {
        self.blocks@
    }

    /// Where the obstacle stands as it comes into the world, from left to right.
    pub closed spec fn spec_x(&self) -> int {
        self.x as int
    }

    /// The motion that the obstacle has as it comes into the world.
    pub closed spec fn spec_movable(&self) -> Movable {
        self.movable
    }

    /// The blocks of an obstacle are those that its gap leaves standing; it
    /// starts just beyond the right edge, moving left at a speed that it keeps.
    #[verifier::type_invariant]
    pub open spec fn inv(self) -> bool {
        &&& self.spec_blocks() == layout(self.spec_empty_idx())
        &&& self.spec_x() == SPAWN_X
        &&& self.spec_movable() == pipe_motion()
    }

    /// The obstacle whose gap begins at `empty_idx`.
    pub fn with_gap(empty_idx: u32) -> (pipe: Pipe)
        ensures
            pipe.spec_empty_idx() == empty_idx,
            pipe.spec_blocks() == layout(empty_idx as int),
            pipe.spec_blocks().len() == COLUMN_SIZE - gap_columns_below(
                empty_idx as int,
                COLUMN_SIZE as int,
            ),
            pipe.spec_x() == SPAWN_X,
            pipe.spec_movable() == pipe_motion(),
    {
        let mut blocks: Vec<PipeBlock> = Vec::new();
        let mut i: u32 = 0;
        proof {
            lemma_blocks_below_step(empty_idx as int, 0);
        }
        while i < COLUMN_SIZE
            invariant
                i <= COLUMN_SIZE,
                blocks@ == blocks_below(empty_idx as int, i as nat),
                blocks@.len() == i - gap_columns_below(empty_idx as int, i as int),
            decreases COLUMN_SIZE - i,
        {
            proof {
                lemma_blocks_below_step(empty_idx as int, i as nat);
            }
            if !(i >= empty_idx && i - empty_idx < EMPTY_COLUMNS) {
                blocks.push(block_at(i));
            }
            i = i + 1;
        }
        Pipe { empty_idx, blocks, x: SPAWN_X, movable: pipe_movable() }
    }

    /// Where the obstacle stands as it comes into the world, from left to right.
    pub fn x(&self) -> (x: i32)
        ensures
            x == self.spec_x(),
            x == SPAWN_X,
    {
        proof {
            use_type_invariant(self);
        }
        self.x
    }

    /// The motion that the obstacle has as it comes into the world.
    pub fn movable(&self) -> (movable: Movable)
        ensures
            movable == self.spec_movable(),
            movable == pipe_motion(),
    {
        proof {
            use_type_invariant(self);
        }
        self.movable
    }

    /// The column at which the gap begins.
    pub fn empty_idx(&self) -> (empty_idx: u32)
        ensures
            empty_idx == self.spec_empty_idx(),
    {
        self.empty_idx
    }

    /// The blocks, from the bottom upwards.
    pub fn blocks(&self) -> (blocks: &Vec<PipeBlock>)
        ensures
            blocks@ == self.spec_blocks(),
            blocks@ == layout(self.spec_empty_idx()),
    {
        proof {
            use_type_invariant(self);
        }
        &self.blocks
    }
}

/// The block that stands in `column`.
pub fn block_at(column: u32) -> (block: PipeBlock)
    requires
        column < COLUMN_SIZE,
    ensures
        block == block_in(column as int),
{
    let c: i32 = column as i32;
    PipeBlock { column, y: BLOCK_HEIGHT * c + BLOCK_HEIGHT / 2 - RESOLUTION_Y / 2 }
}

/// The motion of an obstacle: to the left at the obstacles' speed, which it
/// keeps, since nothing speeds it up or slows it down.
pub open spec fn pipe_motion() -> Movable {
    Movable {
        acceleration: IVec3 { x: 0, y: 0, z: 0 },
        velocity: IVec3 { x: (-SPEED) as i32, y: 0, z: 0 },
    }
}

/// The motion to attach to a new obstacle.
pub fn pipe_movable() -> (movable: Movable)
    ensures
        movable == pipe_motion(),
        movable.acceleration == (IVec3 { x: 0, y: 0, z: 0 }),
        movable.velocity == (IVec3 { x: (-SPEED) as i32, y: 0, z: 0 }),
{
    Movable { acceleration: IVec3::splat(0), velocity: IVec3 { x: -SPEED, y: 0, z: 0 } }
}

/// The motion that every obstacle is set to when play ends: at rest, and
/// staying at rest.
pub fn stop_pipes() -> (movable: Movable)
    ensures
        movable == Movable::spec_at_rest(),
        movable.velocity == (IVec3 { x: 0, y: 0, z: 0 }),
        movable.acceleration == (IVec3 { x: 0, y: 0, z: 0 }),
{
    Movable::at_rest()
}

/// Draws a number from `low` up to, not including, `high`, with `Rng::gen_range` of
/// rand on the generator that `rand::thread_rng` hands out.
///
/// The contract claims only the bounds, which hold of whatever is drawn;
/// `gen_range` panics on an empty range.
#[verifier::external_body]
fn random_in_range(low: u32, high: u32) -> (n: u32)
    requires
        low < high,
    ensures
        low <= n < high,
{
    rand::thread_rng().gen_range(low..high)
}

/// Picks at random the column at which the gap of a new obstacle begins.
///
/// Whatever is drawn, the whole gap lies among the columns, with at least one
/// block below it and one above.
pub fn choose_gap() -> (empty_idx: u32)
    ensures
        gap_allowed(empty_idx as int),
        gap_fits(empty_idx as int),
{
    random_in_range(1, COLUMN_SIZE - EMPTY_COLUMNS)
}

/// The timer of the spawner as the game starts: a full interval is over, so that
/// the first obstacle comes at once.
pub open spec fn spawn_timer_start() -> TimerState {
    TimerState {
        interval: (SPAWN_INTERVAL * NANOS_PER_MILLI) as nat,
        elapsed: 0,
        times_finished: 1,
    }
}

/// The timer by which obstacles are spawned, set so that the first one is due.
pub fn init_timer() -> (timer: RepeatingTimer)
    ensures
        timer@ == spawn_timer_start(),
        timer@.just_finished(),
{
    let mut timer = RepeatingTimer::new(SPAWN_INTERVAL);
    let remaining = timer.remaining_ns();
    timer.tick(remaining);
    timer
}

/// One frame of the spawner: `delta_ns` nanoseconds have passed since the last.
///
/// An obstacle is due exactly when the timer finished an interval in the tick
/// before this one; at most one comes per frame. It stands just beyond the right
/// edge and moves left at a speed that it keeps. The timer is ticked afterwards.
pub fn spawn(timer: &mut RepeatingTimer, delta_ns: u64) -> (pipe: Option<Pipe>)
    requires
        old(timer)@.can_tick(delta_ns as nat),
    ensures
        final(timer)@ == old(timer)@.ticked(delta_ns as nat),
        pipe.is_some() == old(timer)@.just_finished(),
        pipe matches Some(p) ==> gap_allowed(p.spec_empty_idx()) && p.spec_blocks() == layout(
            p.spec_empty_idx(),
        ) && p.spec_blocks().len() == COLUMN_SIZE - EMPTY_COLUMNS && p.spec_x() == SPAWN_X
            && p.spec_movable() == pipe_motion(),
{
    let pipe = if timer.just_finished() {
        Some(Pipe::with_gap(choose_gap()))
    } else {
        None
    };
    timer.tick(delta_ns);
    pipe
}

} // verus!
