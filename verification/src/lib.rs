pub mod movable;
pub mod pipe;
pub mod player;
pub mod score;
pub mod states;
pub mod timer;

use vstd::prelude::*;

verus! {

/// Width of the play field, in pixels.
pub const RESOLUTION_X: i32 = 1280;

/// Height of the play field, in pixels.
pub const RESOLUTION_Y: i32 = 720;

/// Numerator of the factor by which every sprite is enlarged on screen.
pub const SCALE_NUM: i32 = 9;

/// Denominator of the factor by which every sprite is enlarged on screen.
pub const SCALE_DEN: i32 = 2;

} // verus!
