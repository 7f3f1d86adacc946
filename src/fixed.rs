//! Fixed-point quantities: every value is an `i64` counting millionths of a
//! unit (microseconds, micrometres, microradians, ...).

use vstd::prelude::*;

verus! {

/// Steps per unit: a stored value `v` stands for `v / SCALE` units.
pub const SCALE: i64 = 1_000_000;

/// `n / d` for a positive `d`, rounded toward zero.
pub open spec fn div_trunc(n: int, d: int) -> int {
    if n >= 0 {
        n / d
    } else {
        -((-n) / d)
    }
}

/// Product of two fixed-point values, rounded toward zero.
pub open spec fn mul_fx(a: int, b: int) -> int {
    div_trunc(a * b, SCALE as int)
}

/// `a + v * t` in fixed point: a value advanced at rate `v` for a time `t`.
pub open spec fn advanced(a: int, v: int, t: int) -> int {
    a + mul_fx(v, t)
}

pub open spec fn fits_i64(x: int) -> bool {
    i64::MIN <= x <= i64::MAX
}

/// A vector of three fixed-point components.
#[derive(Clone, Copy, PartialEq, Eq, Structural, Debug)]
pub struct Vec3 {
    pub x: i64,
    pub y: i64,
    pub z: i64,
}

impl Vec3 {
    pub open spec fn is_advanced(self, a: Vec3, v: Vec3, t: int) -> bool {
        &&& self.x == advanced(a.x as int, v.x as int, t)
        &&& self.y == advanced(a.y as int, v.y as int, t)
        &&& self.z == advanced(a.z as int, v.z as int, t)
    }

    pub open spec fn can_advance(a: Vec3, v: Vec3, t: int) -> bool {
        &&& fits_i64(advanced(a.x as int, v.x as int, t))
        &&& fits_i64(advanced(a.y as int, v.y as int, t))
        &&& fits_i64(advanced(a.z as int, v.z as int, t))
    }

    pub open spec fn is_scaled(self, s: int, d: Vec3) -> bool {
        &&& self.x == mul_fx(s, d.x as int)
        &&& self.y == mul_fx(s, d.y as int)
        &&& self.z == mul_fx(s, d.z as int)
    }

    pub open spec fn can_scale(s: int, d: Vec3) -> bool {
        &&& fits_i64(mul_fx(s, d.x as int))
        &&& fits_i64(mul_fx(s, d.y as int))
        &&& fits_i64(mul_fx(s, d.z as int))
    }

    /// The zero vector.
    pub fn zero() -> (r: Vec3)
        ensures
            r.x == 0 && r.y == 0 && r.z == 0,
    {
        Vec3 { x: 0, y: 0, z: 0 }
    }

    /// `a + v * t`, or `None` where a component leaves the range of `i64`.
    pub fn advance(a: Vec3, v: Vec3, t: i64) -> (r: Option<Vec3>)
        ensures
            r is Some <==> Vec3::can_advance(a, v, t as int),
            r matches Some(q) ==> q.is_advanced(a, v, t as int),
    {
        let x = advance_component(a.x, v.x, t);
        let y = advance_component(a.y, v.y, t);
        let z = advance_component(a.z, v.z, t);
        match (x, y, z) {
            (Some(x), Some(y), Some(z)) => Some(Vec3 { x, y, z }),
            _ => None,
        }
    }

    /// `s * d` componentwise, or `None` where a component leaves the range of `i64`.
    pub fn scale(s: i64, d: Vec3) -> (r: Option<Vec3>)
        ensures
            r is Some <==> Vec3::can_scale(s as int, d),
            r matches Some(q) ==> q.is_scaled(s as int, d),
    {
        let x = narrow(mul_fx_exec(s, d.x));
        let y = narrow(mul_fx_exec(s, d.y));
        let z = narrow(mul_fx_exec(s, d.z));
        match (x, y, z) {
            (Some(x), Some(y), Some(z)) => Some(Vec3 { x, y, z }),
            _ => None,
        }
    }
}

/// Division toward zero by a positive divisor.
pub fn div_trunc_exec(n: i128, d: i128) -> (r: i128)
    requires
        d > 0,
        n > i128::MIN,
    ensures
        r == div_trunc(n as int, d as int),
{
    if n >= 0 {
        n / d
    } else {
        let m: i128 = -n;
        proof {
            assert(m as int / d as int <= m as int) by (nonlinear_arith)
                requires m as int >= 0, d as int > 0;
            assert(m as int / d as int >= 0) by (nonlinear_arith)
                requires m as int >= 0, d as int > 0;
        }
        -(m / d)
    }
}

/// The fixed-point product of two `i64` values, held in an `i128`.
pub fn mul_fx_exec(a: i64, b: i64) -> (r: i128)
    ensures
        r == mul_fx(a as int, b as int),
{
    proof {
        assert(-0x4000_0000_0000_0000_0000_0000_0000_0000 <= a as int * b as int
            <= 0x4000_0000_0000_0000_0000_0000_0000_0000) by (nonlinear_arith)
            requires
                -0x8000_0000_0000_0000 <= a as int <= 0x7fff_ffff_ffff_ffff,
                -0x8000_0000_0000_0000 <= b as int <= 0x7fff_ffff_ffff_ffff,
        ;
    }
    let p: i128 = (a as i128) * (b as i128);
    div_trunc_exec(p, SCALE as i128)
}

/// An `i128` narrowed to `i64` where it fits.
pub fn narrow(v: i128) -> (r: Option<i64>)
    ensures
        r is Some <==> fits_i64(v as int),
        r matches Some(x) ==> x == v,
{
    if i64::MIN as i128 <= v && v <= i64::MAX as i128 {
        Some(v as i64)
    } else {
        None
    }
}

/// `a + v * t` for one component, or `None` where it leaves the range of `i64`.
pub fn advance_component(a: i64, v: i64, t: i64) -> (r: Option<i64>)
    ensures
        r is Some <==> fits_i64(advanced(a as int, v as int, t as int)),
        r matches Some(x) ==> x == advanced(a as int, v as int, t as int),
{
    let m = mul_fx_exec(v, t);
    proof {
        lemma_mul_fx_bounded(v as int, t as int);
    }
    narrow(a as i128 + m)
}

proof fn lemma_mul_fx_bounded(a: int, b: int)
    requires
        fits_i64(a),
        fits_i64(b),
    ensures
        -0x4000_0000_0000_0000_0000_0000_0000_0000 <= mul_fx(a, b)
            <= 0x4000_0000_0000_0000_0000_0000_0000_0000,
{
    assert(-0x4000_0000_0000_0000_0000_0000_0000_0000 <= a * b
        <= 0x4000_0000_0000_0000_0000_0000_0000_0000) by (nonlinear_arith)
        requires
            -0x8000_0000_0000_0000 <= a <= 0x7fff_ffff_ffff_ffff,
            -0x8000_0000_0000_0000 <= b <= 0x7fff_ffff_ffff_ffff,
    ;
    let n = a * b;
    if n >= 0 {
        assert(0 <= n / 1_000_000 <= n) by (nonlinear_arith) requires n >= 0;
    } else {
        assert(0 <= (-n) / 1_000_000 <= -n) by (nonlinear_arith) requires -n >= 0;
    }
}

} // verus!
