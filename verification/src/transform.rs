use vstd::prelude::*;

verus! {

/// One primitive transform step. Parameters are fixed-point raw units
/// (1/65536), see `crate::fixed::Fx`.
///
/// A step denotes an affine matrix of the engine: a translation, an
/// axis-wise scale, a uniform scale by a reciprocal, or a rotation about
/// one of the three axes by an angle in radians. The library never
/// evaluates that matrix: a transform is the exact sequence of its steps,
/// and two transforms are the same composition exactly when their step
/// sequences are equal.
#[derive(Clone, Copy, PartialEq, Eq, Structural, Debug)]
pub enum Prim {
    /// Translation by `(x, y)`.
    Shift { x: i64, y: i64 },
    /// Scale by `x` along the first axis and `y` along the second.
    Scale { x: i64, y: i64 },
    /// Uniform scale by the reciprocal of `f`.
    Downscale { f: i64 },
    /// Rotation about the first axis (pitch) by `a` radians.
    RotX { a: i64 },
    /// Rotation about the second axis (yaw) by `a` radians.
    RotY { a: i64 },
    /// Rotation in the drawing plane by `a` radians.
    RotZ { a: i64 },
}

/// A transform: a composition of primitive steps, applied in sequence
/// order. The empty sequence is the identity, and composition is
/// concatenation, which makes composition associative by construction.
#[derive(Clone, Debug, PartialEq)]
pub struct Transform {
    pub prims: Vec<Prim>,
}

impl View for Transform {
    type V = Seq<Prim>;

    open spec fn view(&self) -> Seq<Prim> {
        self.prims@
    }
}

/// Copies a step sequence element for element.
fn copy_prims(src: &Vec<Prim>) -> (out: Vec<Prim>)
    ensures
        out@ == src@,
{
    let mut out: Vec<Prim> = Vec::new();
    let mut i: usize = 0;
    while i < src.len()
        invariant
            i <= src.len(),
            out@ == src@.take(i as int),
        decreases src.len() - i,
    {
        out.push(src[i]);
        i += 1;
        proof {
            assert(out@ =~= src@.take(i as int));
        }
    }
    proof {
        assert(out@ =~= src@);
    }
    out
}

impl Transform {
    /// The identity transform: the empty composition.
    pub fn identity() -> (t: Transform)
        ensures
            t@ == Seq::<Prim>::empty(),
    {
        let t = Transform { prims: Vec::new() };
        proof {
            assert(t@ =~= Seq::<Prim>::empty());
        }
        t
    }

    /// The composition that applies `self`'s steps first, then `other`'s:
    /// `other` is nested inside `self`'s frame.
    pub fn compose(self, other: Transform) -> (t: Transform)
        ensures
            t@ == self@ + other@,
    {
        let mut prims = self.prims;
        let mut rest = other.prims;
        prims.append(&mut rest);
        Transform { prims }
    }

    /// An equal transform under separate ownership.
    pub fn duplicate(&self) -> (t: Transform)
        ensures
            t@ == self@,
    {
        Transform { prims: copy_prims(&self.prims) }
    }
}

} // verus!
