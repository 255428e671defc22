use crate::movable::{IVec3, Movable};
use crate::timer::{RepeatingTimer, TimerState, NANOS_PER_MILLI};
use crate::{RESOLUTION_Y, SCALE_DEN, SCALE_NUM};
use vstd::prelude::*;

verus! {

/// Width and height of one frame of the player's sprite, in its own pixels.
pub const PLAYER_SPRITE_SIZE: i32 = 16;

/// Width and height of the player on screen: the sprite, enlarged.
pub const PLAYER_SIZE: i32 = 72;

/// Width and height of the box by which the player touches a block: three
/// quarters of its size on screen.
pub const HITBOX_SIZE: i32 = 54;

/// Milliseconds for which one frame of the player's sprite is shown.
pub const ANIMATION_INTERVAL: u64 = 200;

/// How many frames the animation of the player's sprite has.
pub const ANIMATION_FRAME_COUNT: usize = 2;

/// Pull of gravity on the sprite, in its own pixels per second squared.
pub const GRAVITY: i32 = -300;

/// Pull of gravity on screen, in pixels per second squared.
pub const FALL_ACCELERATION: i32 = -1350;

/// Upward speed that a jump gives, in pixels per second.
pub const JUMP_FORCE: i32 = 500;

/// Distance from the middle of the play field, up or down, at which the player is out.
pub const DEADZONE_Y: i32 = 396;

/// How the lengths above hang together: sizes on screen are the sprite's,
/// enlarged; the hitbox is three quarters of the player; the player is out once
/// all of it is above or below the play field.
pub proof fn lemma_player_geometry()
    ensures
        PLAYER_SIZE * SCALE_DEN == SCALE_NUM * PLAYER_SPRITE_SIZE,
        4 * HITBOX_SIZE == 3 * PLAYER_SIZE,
        FALL_ACCELERATION * SCALE_DEN == SCALE_NUM * GRAVITY,
        2 * DEADZONE_Y == RESOLUTION_Y + PLAYER_SIZE,
{
}

/// The frames of the sprite sheet, in the order in which the animation shows them.
pub open spec fn animation_frames() -> Seq<usize> {
    seq![0usize, 1usize]
}

/// The frame of the sprite sheet that the animation shows at place `index`.
pub fn animation_frame(index: usize) -> (frame: usize)
    requires
        index < ANIMATION_FRAME_COUNT,
    ensures
        frame == animation_frames()[index as int],
{
    index
}

/// The animation of the player's sprite: which frame is shown, and the timer
/// that moves it on.
#[derive(Debug, Clone, Copy, PartialEq, Eq)]
pub struct Animation {
    timer: RepeatingTimer,
    index: usize,
}

impl Animation {
    /// The place, among the frames of the animation, of the one that is shown.
    pub closed spec fn spec_index(&self) -> int {
        self.index as int
    }

    /// The timer that moves the animation on.
    pub closed spec fn spec_timer(&self) -> TimerState {
        self.timer@
    }

    /// The frame shown is one of the frames of the animation.
    #[verifier::type_invariant]
    pub open spec fn inv(self) -> bool {
        0 <= self.spec_index() < ANIMATION_FRAME_COUNT && self.spec_timer().wf()
    }

    /// The animation at its first frame, with the whole interval ahead.
    pub fn new() -> (animation: Animation)
        ensures
            animation.spec_index() == 0,
            animation.spec_timer() == (TimerState {
                interval: (ANIMATION_INTERVAL * NANOS_PER_MILLI) as nat,
                elapsed: 0,
                times_finished: 0,
            }),
    {
        Animation { timer: RepeatingTimer::new(ANIMATION_INTERVAL), index: 0 }
    }

    /// The place, among the frames of the animation, of the one that is shown.
    pub fn index(&self) -> (index: usize)
        ensures
            index == self.spec_index(),
            index < ANIMATION_FRAME_COUNT,
    {
        proof {
            use_type_invariant(self);
        }
        self.index
    }

    /// The timer that moves the animation on.
    pub fn timer(&self) -> (timer: &RepeatingTimer)
        ensures
            timer@ == self.spec_timer(),
    {
        &self.timer
    }

    /// One frame of the game: `delta_ns` nanoseconds have passed since the last.
    ///
    /// When the timer finishes an interval in this tick, the animation moves on by
    /// one frame, starting over after the last, and the frame to show is returned.
    /// Otherwise nothing changes but the timer, and nothing is returned.
    pub fn animate_sprite(&mut self, delta_ns: u64) -> (frame: Option<usize>)
        requires
            old(self).spec_timer().can_tick(delta_ns as nat),
        ensures
            final(self).spec_timer() == old(self).spec_timer().ticked(delta_ns as nat),
            final(self).spec_timer().just_finished() ==> final(self).spec_index() == (old(
                self,
            ).spec_index() + 1) % (ANIMATION_FRAME_COUNT as int) && frame == Some(
                animation_frames()[final(self).spec_index()],
            ),
            !final(self).spec_timer().just_finished() ==> final(self).spec_index() == old(
                self,
            ).spec_index() && frame.is_none(),
    {
        proof {
            use_type_invariant(&*self);
        }
        let mut timer = self.timer;
        timer.tick(delta_ns);
        self.timer = timer;
        if !timer.just_finished() {
            return None;
        }
        self.index = (self.index + 1) % ANIMATION_FRAME_COUNT;
        Some(animation_frame(self.index))
    }
}

/// The motion that the player is given as the game starts: it falls under
/// gravity, and begins with a jump.
pub open spec fn player_motion() -> Movable {
    Movable {
        acceleration: IVec3 { x: 0, y: FALL_ACCELERATION, z: 0 },
        velocity: IVec3 { x: 0, y: JUMP_FORCE, z: 0 },
    }
}

/// The motion to attach to the player as the game starts.
pub fn insert_movable() -> (movable: Movable)
    ensures
        movable == player_motion(),
{
    Movable {
        acceleration: IVec3 { x: 0, y: FALL_ACCELERATION, z: 0 },
        velocity: IVec3 { x: 0, y: JUMP_FORCE, z: 0 },
    }
}

/// The velocity that the jump key gives the player: straight up at the speed of
/// a jump, whatever the player's velocity was. Without the key nothing is set.
pub fn handle_input(jump_pressed: bool) -> (velocity: Option<IVec3>)
    ensures
        velocity == if jump_pressed {
            Some(IVec3 { x: 0, y: JUMP_FORCE, z: 0 })
        } else {
            None
        },
{
    if jump_pressed {
        Some(IVec3 { x: 0, y: JUMP_FORCE, z: 0 })
    } else {
        None
    }
}

/// Whether any block is hit, given for each block whether the player's hitbox
/// overlaps it.
pub open spec fn any_hit(hits: Seq<bool>) -> bool {
    exists|i: int| 0 <= i < hits.len() && hits[i]
}

/// What one frame holds for the player.
pub struct Frame {
    /// Whether the player is in the dead zone, above or below the play field.
    pub out_of_bounds: bool,
    /// For each block, whether the player's hitbox overlaps it.
    pub hits: Seq<bool>,
}

impl Frame {
    /// Whether the player is lost in this frame.
    pub open spec fn fatal(self) -> bool {
        self.out_of_bounds || any_hit(self.hits)
    }
}

/// Whether the player is still in the world after the given frames.
pub open spec fn alive_after(alive: bool, frames: Seq<Frame>) -> bool
    decreases frames.len(),
{
    if frames.len() == 0 {
        alive
    } else {
        alive_after(alive, frames.drop_last()) && !frames.last().fatal()
    }
}

/// The player stays for as long as no frame is fatal, and no longer: it is in
/// the world after some frames exactly if none of them was fatal, so it leaves in
/// the first fatal frame and in no frame before it.
pub proof fn lemma_removed_at_first_fatal_frame(frames: Seq<Frame>)
    ensures
        alive_after(true, frames) == (forall|i: int|
            0 <= i < frames.len() ==> !(#[trigger] frames[i]).fatal()),
        forall|k: int|
            0 <= k < frames.len() ==> ((alive_after(true, #[trigger] frames.take(k))
                && !alive_after(true, frames.take(k + 1))) <==> (frames[k].fatal() && forall|
                i: int,
            |
                0 <= i < k ==> !(#[trigger] frames[i]).fatal())),
{
    lemma_alive_after(frames);
    assert forall|k: int| 0 <= k < frames.len() implies ((alive_after(
        true,
        #[trigger] frames.take(k),
    ) && !alive_after(true, frames.take(k + 1))) <==> (frames[k].fatal() && forall|i: int|
        0 <= i < k ==> !(#[trigger] frames[i]).fatal())) by {
        let before = frames.take(k);
        let upto = frames.take(k + 1);
        lemma_alive_after(before);
        lemma_alive_after(upto);
        assert(upto.drop_last() =~= before);
        assert(upto.last() == frames[k]);
        assert forall|i: int| 0 <= i < k implies before[i] == frames[i] by {}
        if forall|i: int| 0 <= i < k ==> !(#[trigger] frames[i]).fatal() {
            assert forall|i: int| 0 <= i < before.len() implies !(#[trigger] before[i]).fatal() by {
                assert(before[i] == frames[i]);
            }
        }
        if forall|i: int| 0 <= i < before.len() ==> !(#[trigger] before[i]).fatal() {
            assert forall|i: int| 0 <= i < k implies !(#[trigger] frames[i]).fatal() by {
                assert(before[i] == frames[i]);
            }
        }
    }
}

/// A player that was in the world is still there exactly if no frame was fatal.
proof fn lemma_alive_after(frames: Seq<Frame>)
    ensures
        alive_after(true, frames) == (forall|i: int|
            0 <= i < frames.len() ==> !(#[trigger] frames[i]).fatal()),
        !alive_after(false, frames),
    decreases frames.len(),
{
    if frames.len() > 0 {
        let head = frames.drop_last();
        lemma_alive_after(head);
        if forall|i: int| 0 <= i < frames.len() ==> !(#[trigger] frames[i]).fatal() {
            assert forall|i: int| 0 <= i < head.len() implies !(#[trigger] head[i]).fatal() by {
                assert(head[i] == frames[i]);
            }
            assert(!frames[frames.len() - 1].fatal());
        }
        if alive_after(true, frames) {
            assert forall|i: int| 0 <= i < frames.len() implies !(#[trigger] frames[i]).fatal() by {
                if i < head.len() {
                    assert(head[i] == frames[i]);
                }
            }
        }
    }
}

/// The player: whether it is still in the world.
#[derive(Debug, Clone, Copy, PartialEq, Eq)]
pub struct Player {
    alive: bool,
}

impl View for Player {
    type V = bool;

    /// Whether the player is still in the world.
    closed spec fn view(&self) -> bool {
        self.alive
    }
}

impl Player {
    /// The player as it enters the world.
    pub fn new() -> (player: Player)
        ensures
            player@,
    {
        Player { alive: true }
    }

    /// Whether the player is still in the world.
    pub fn is_alive(&self) -> (alive: bool)
        ensures
            alive == self@,
    {
        self.alive
    }

    /// Takes the player out of the world when it is in the dead zone. Returns
    /// whether it was taken out by this call.
    pub fn check_deadzone(&mut self, out_of_bounds: bool) -> (despawn: bool)
        ensures
            despawn == (old(self)@ && out_of_bounds),
            final(self)@ == (old(self)@ && !out_of_bounds),
    {
        if self.alive && out_of_bounds {
            self.alive = false;
            return true;
        }
        false
    }

    /// Takes the player out of the world when its hitbox overlaps a block; `hits`
    /// says so for each block. Returns whether it was taken out by this call.
    pub fn collide_with_pipe(&mut self, hits: &Vec<bool>) -> (despawn: bool)
        ensures
            despawn == (old(self)@ && any_hit(hits@)),
            final(self)@ == (old(self)@ && !any_hit(hits@)),
    {
        if !self.alive {
            return false;
        }
        let mut i: usize = 0;
        while i < hits.len()
            invariant
                i <= hits@.len(),
                self.alive,
                old(self)@,
                forall|j: int| 0 <= j < i ==> !hits@[j],
            decreases hits@.len() - i,
        {
            if hits[i] {
                assert(hits@[i as int]);
                self.alive = false;
                return true;
            }
            i = i + 1;
        }
        false
    }

    /// One frame of the player: the dead zone is looked at, then the blocks.
    /// Returns whether the player was taken out of the world in this frame.
    pub fn update(&mut self, out_of_bounds: bool, hits: &Vec<bool>) -> (despawn: bool)
        ensures
            final(self)@ == alive_after(old(self)@, seq![(Frame { out_of_bounds, hits: hits@ })]),
            despawn == (old(self)@ && !final(self)@),
    {
        let ghost frame = Frame { out_of_bounds, hits: hits@ };
        assert(seq![frame].drop_last() =~= Seq::<Frame>::empty());
        assert(alive_after(old(self)@, seq![frame]) == (alive_after(
            old(self)@,
            Seq::<Frame>::empty(),
        ) && !frame.fatal()));
        let out = self.check_deadzone(out_of_bounds);
        let hit = self.collide_with_pipe(hits);
        out || hit
    }
}

} // verus!
