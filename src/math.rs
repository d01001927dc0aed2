//! Small vector types shared with the GPU.

use vstd::prelude::*;

verus! {

/// The packed value of a 4-vector of bytes: `x` in the lowest byte, `w` in
/// the highest.
pub open spec fn ivec_value(x: u8, y: u8, z: u8, w: u8) -> int {
    x as int + y as int * 0x100 + z as int * 0x10000 + w as int * 0x1000000
}

/// A 4-vector of `u8`s, packed into 32 bits in the GPU's WZYX layout.
#[derive(Clone, Copy, PartialEq, Eq, Debug, Structural)]
pub struct IVec(u32);

impl IVec {
    pub closed spec fn packed(self) -> u32 {
        self.0
    }

    /// `IVec_Pack`: the vector of `x`, `y`, `z`, `w`.
    pub fn new(x: u8, y: u8, z: u8, w: u8) -> (r: IVec)
        ensures
            r.packed() == ivec_value(x, y, z, w),
    {
        let v = x as u32 | (y as u32) << 8 | (z as u32) << 16 | (w as u32) << 24;
        assert(x as u32 | (y as u32) << 8 | (z as u32) << 16 | (w as u32) << 24
            == x as u32 + y as u32 * 0x100 + z as u32 * 0x10000 + w as u32 * 0x1000000) by (bit_vector);
        IVec(v)
    }

    /// The packed native value.
    pub fn as_raw(&self) -> (r: &u32)
        ensures
            *r == self.packed(),
    {
        &self.0
    }

    /// First component, in the lowest byte.
    pub fn x(self) -> (r: u8)
        ensures
            r == self.packed() % 0x100,
    {
        let v = self.0;
        assert((v as u8) as u32 == v % 0x100) by (bit_vector);
        v as u8
    }

    /// Second component.
    pub fn y(self) -> (r: u8)
        ensures
            r == (self.packed() / 0x100) % 0x100,
    {
        let v = self.0;
        assert(((v >> 8) as u8) as u32 == (v / 0x100) % 0x100) by (bit_vector);
        (v >> 8) as u8
    }

    /// Third component.
    pub fn z(self) -> (r: u8)
        ensures
            r == (self.packed() / 0x10000) % 0x100,
    {
        let v = self.0;
        assert(((v >> 16) as u8) as u32 == (v / 0x10000) % 0x100) by (bit_vector);
        (v >> 16) as u8
    }

    /// Fourth component, in the highest byte.
    pub fn w(self) -> (r: u8)
        ensures
            r == self.packed() / 0x1000000,
    {
        let v = self.0;
        assert(((v >> 24) as u8) as u32 == v / 0x1000000) by (bit_vector);
        (v >> 24) as u8
    }
}

/// Each getter of a vector gives back the component it was made with.
pub proof fn lemma_ivec_round_trip(x: u8, y: u8, z: u8, w: u8)
    ensures
        ivec_value(x, y, z, w) % 0x100 == x,
        (ivec_value(x, y, z, w) / 0x100) % 0x100 == y,
        (ivec_value(x, y, z, w) / 0x10000) % 0x100 == z,
        ivec_value(x, y, z, w) / 0x1000000 == w,
{
    let v = ivec_value(x, y, z, w);
    assert(v % 0x100 == x) by (nonlinear_arith)
        requires v == x as int + y as int * 0x100 + z as int * 0x10000 + w as int * 0x1000000, 0 <= x < 0x100;
    assert(v / 0x100 == x as int / 0x100 + y as int + z as int * 0x100 + w as int * 0x10000) by (nonlinear_arith)
        requires v == x as int + y as int * 0x100 + z as int * 0x10000 + w as int * 0x1000000, 0 <= x < 0x100;
    assert((v / 0x100) % 0x100 == y) by (nonlinear_arith)
        requires v / 0x100 == y as int + z as int * 0x100 + w as int * 0x10000, 0 <= y < 0x100;
    assert(v / 0x10000 == z as int + w as int * 0x100) by (nonlinear_arith)
        requires v == x as int + y as int * 0x100 + z as int * 0x10000 + w as int * 0x1000000,
            0 <= x < 0x100, 0 <= y < 0x100;
    assert((v / 0x10000) % 0x100 == z) by (nonlinear_arith)
        requires v / 0x10000 == z as int + w as int * 0x100, 0 <= z < 0x100;
    assert(v / 0x1000000 == w) by (nonlinear_arith)
        requires v == x as int + y as int * 0x100 + z as int * 0x10000 + w as int * 0x1000000,
            0 <= x < 0x100, 0 <= y < 0x100, 0 <= z < 0x100;
}

} // verus!
