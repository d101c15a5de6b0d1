use vstd::prelude::*;

verus! {

/// Raw units per one: scalars carry 16 fractional bits.
pub const FX_ONE: i64 = 65536;

/// A fixed-point scalar; `raw` counts 1/65536 units.
///
/// Transform parameters (offsets, scale factors, angles in radians) are kept
/// in this exact form, so that equality of transforms is plain equality of
/// integers; the engine adapter converts to floating point only at the
/// drawing boundary.
#[derive(Clone, Copy, PartialEq, Eq, Structural, Debug)]
pub struct Fx {
    pub raw: i64,
}

impl Fx {
    /// The scalar with the given raw (1/65536) units.
    pub fn from_raw(raw: i64) -> (r: Fx)
        ensures
            r.raw == raw,
    {
        Fx { raw }
    }

    /// The scalar of the whole number `n`.
    pub fn from_int(n: i64) -> (r: Fx)
        requires
            -140_737_488_355_327 <= n <= 140_737_488_355_327,
        ensures
            r.raw == n * FX_ONE,
    {
        Fx { raw: n * FX_ONE }
    }

    /// Zero.
    pub fn zero() -> (r: Fx)
        ensures
            r.raw == 0,
    {
        Fx { raw: 0 }
    }

    /// One.
    pub fn one() -> (r: Fx)
        ensures
            r.raw == FX_ONE,
    {
        Fx { raw: FX_ONE }
    }

    /// The negated scalar.
    pub fn neg(self) -> (r: Fx)
        requires
            self.raw != i64::MIN,
        ensures
            r.raw == -self.raw,
    {
        Fx { raw: -self.raw }
    }
}

} // verus!
