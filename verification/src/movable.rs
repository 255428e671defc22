use vstd::prelude::*;

verus! {

/// A vector of whole numbers: pixels, pixels per second, or pixels per second squared.
#[derive(Debug, Clone, Copy, PartialEq, Eq, Structural)]
pub struct IVec3 {
    pub x: i32,
    pub y: i32,
    pub z: i32,
}

impl IVec3 {
    /// The vector with `v` in every place.
    pub fn splat(v: i32) -> (vector: IVec3)
        ensures
            vector == (IVec3 { x: v, y: v, z: v }),
    {
        IVec3 { x: v, y: v, z: v }
    }
}

/// The motion that the game gives to a thing when it sets it going: how fast it
/// moves at that moment, and how its speed changes from then on.
#[derive(Debug, Clone, Copy, PartialEq, Eq, Structural)]
pub struct Movable {
    pub acceleration: IVec3,
    pub velocity: IVec3,
}

impl Default for Movable {
    fn default() -> (movable: Self)
        ensures
            movable == Movable::spec_default(),
    {
        Movable { acceleration: IVec3::splat(1), velocity: IVec3::splat(0) }
    }
}

impl Movable {
    /// The motion of a thing at rest that stays at rest: no speed, and none gained.
    pub open spec fn spec_at_rest() -> Movable {
        Movable {
            acceleration: IVec3 { x: 0, y: 0, z: 0 },
            velocity: IVec3 { x: 0, y: 0, z: 0 },
        }
    }

    /// The motion of a thing at rest that stays at rest.
    pub fn at_rest() -> (movable: Movable)
        ensures
            movable == Movable::spec_at_rest(),
    {
        Movable { acceleration: IVec3::splat(0), velocity: IVec3::splat(0) }
    }

    /// The motion of a thing that nothing was said about: at rest, and gaining one
    /// pixel per second each second along every axis.
    pub open spec fn spec_default() -> Movable {
        Movable {
            acceleration: IVec3 { x: 1, y: 1, z: 1 },
            velocity: IVec3 { x: 0, y: 0, z: 0 },
        }
    }
}

} // verus!
