use vstd::prelude::*;

use crate::fixed::{Fx, FX_ONE};
use crate::transform::{Prim, Transform};

verus! {

/// One step wrapped as a transform.
fn single(p: Prim) -> (t: Transform)
    ensures
        t@ == seq![p],
{
    let t = Transform { prims: vec![p] };
    proof {
        assert(t@ =~= seq![p]);
    }
    t
}

/// Translation by `(x, y)`.
pub fn shift(x: Fx, y: Fx) -> (t: Transform)
    ensures
        t@ == seq![(Prim::Shift { x: x.raw, y: y.raw })],
{
    single(Prim::Shift { x: x.raw, y: y.raw })
}

/// Mirrors along the first axis.
pub fn flip_x() -> (t: Transform)
    ensures
        t@ == seq![(Prim::Scale { x: (-FX_ONE) as i64, y: FX_ONE })],
{
    single(Prim::Scale { x: -FX_ONE, y: FX_ONE })
}

/// Mirrors along the second axis.
pub fn flip_y() -> (t: Transform)
    ensures
        t@ == seq![(Prim::Scale { x: FX_ONE, y: (-FX_ONE) as i64 })],
{
    single(Prim::Scale { x: FX_ONE, y: -FX_ONE })
}

/// Mirrors along both axes.
pub fn flip_xy() -> (t: Transform)
    ensures
        t@ == seq![(Prim::Scale { x: (-FX_ONE) as i64, y: (-FX_ONE) as i64 })],
{
    single(Prim::Scale { x: -FX_ONE, y: -FX_ONE })
}

/// Scale by `x` along the first axis and `y` along the second.
pub fn scale(x: Fx, y: Fx) -> (t: Transform)
    ensures
        t@ == seq![(Prim::Scale { x: x.raw, y: y.raw })],
{
    single(Prim::Scale { x: x.raw, y: y.raw })
}

/// Uniform scale by `factor`.
pub fn upscale(factor: Fx) -> (t: Transform)
    ensures
        t@ == seq![(Prim::Scale { x: factor.raw, y: factor.raw })],
{
    scale(factor, factor)
}

/// Uniform scale by the reciprocal of `factor`.
pub fn downscale(factor: Fx) -> (t: Transform)
    ensures
        t@ == seq![(Prim::Downscale { f: factor.raw })],
{
    single(Prim::Downscale { f: factor.raw })
}

/// Rotation about the first axis (pitch) by `pitch` radians.
pub fn rotate_x(pitch: Fx) -> (t: Transform)
    ensures
        t@ == seq![(Prim::RotX { a: pitch.raw })],
{
    single(Prim::RotX { a: pitch.raw })
}

/// Rotation about the second axis (yaw) by `yaw` radians.
pub fn rotate_y(yaw: Fx) -> (t: Transform)
    ensures
        t@ == seq![(Prim::RotY { a: yaw.raw })],
{
    single(Prim::RotY { a: yaw.raw })
}

/// Rotation in the drawing plane by `roll` radians.
pub fn rotate_z(roll: Fx) -> (t: Transform)
    ensures
        t@ == seq![(Prim::RotZ { a: roll.raw })],
{
    single(Prim::RotZ { a: roll.raw })
}

/// Rotation in the drawing plane by `radians`, in the engine's positive
/// direction.
pub fn rotate_cw(radians: Fx) -> (t: Transform)
    ensures
        t@ == seq![(Prim::RotZ { a: radians.raw })],
{
    rotate_z(radians)
}

/// Rotation in the drawing plane the other way round: the angle negated.
pub fn rotate_cc(radians: Fx) -> (t: Transform)
    requires
        radians.raw != i64::MIN,
    ensures
        t@ == seq![(Prim::RotZ { a: (-radians.raw) as i64 })],
{
    rotate_cw(radians.neg())
}

} // verus!
