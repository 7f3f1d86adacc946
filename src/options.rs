//! The immutable configuration of one emitter, and the sampling of a freshly
//! respawned particle's quantities from random bytes.

use vstd::prelude::*;
use crate::fixed::{div_trunc, Vec3, SCALE};

verus! {

/// The largest value of a random byte: a byte `t` picks the point `t / 255`
/// of the way from a lower bound to an upper one.
pub const BYTE_MAX: i64 = 255;

/// `lo + (hi - lo) * t / 255`, rounded toward `lo`.
pub open spec fn lerp(lo: int, hi: int, t: int) -> int {
    lo + div_trunc((hi - lo) * t, BYTE_MAX as int)
}

/// The point `t / 255` of the way from `lo` to `hi`. It lies between the two
/// bounds whatever their order, so it always fits.
pub fn lerp_byte(lo: i64, hi: i64, t: u8) -> (r: i64)
    ensures
        r == lerp(lo as int, hi as int, t as int),
        lo <= hi ==> lo <= r <= hi,
        hi <= lo ==> hi <= r <= lo,
{
    let span: i128 = hi as i128 - lo as i128;
    proof {
        assert(-0x1_0000_0000_0000_0000 * 255 <= span as int * t as int
            <= 0x1_0000_0000_0000_0000 * 255) by (nonlinear_arith)
            requires
                -0x1_0000_0000_0000_0000 <= span as int <= 0x1_0000_0000_0000_0000,
                0 <= t as int <= 255,
        ;
    }
    let n: i128 = span * (t as i128);
    let q: i128 = crate::fixed::div_trunc_exec(n, BYTE_MAX as i128);
    proof {
        lemma_lerp_between(lo as int, hi as int, t as int);
    }
    (lo as i128 + q) as i64
}

proof fn lemma_lerp_between(lo: int, hi: int, t: int)
    requires
        0 <= t <= 255,
    ensures
        lo <= hi ==> lo <= lerp(lo, hi, t) <= hi,
        hi <= lo ==> hi <= lerp(lo, hi, t) <= lo,
{
    let d = hi - lo;
    if d >= 0 {
        assert(0 <= d * t <= d * 255) by (nonlinear_arith)
            requires d >= 0, 0 <= t <= 255;
        assert(0 <= (d * t) / 255 <= d) by (nonlinear_arith)
            requires 0 <= d * t <= d * 255;
    } else {
        let e = -d;
        assert(0 <= e * t <= e * 255) by (nonlinear_arith)
            requires e >= 0, 0 <= t <= 255;
        assert(0 <= (e * t) / 255 <= e) by (nonlinear_arith)
            requires 0 <= e * t <= e * 255;
        assert(-(d * t) == e * t) by (nonlinear_arith)
            requires e == -d;
        if d * t >= 0 {
            assert(d * t == 0);
        }
    }
}

/// The configuration of one emitter. Times are in microseconds, lengths in
/// micrometres, angles in microradians.
#[derive(Clone, Copy, PartialEq, Eq, Structural, Debug)]
pub struct EmitterOptions {
    /// Particles in the field, fixed for its whole life.
    pub num_particles: u32,
    /// Acceleration applied to every living particle (micrometres per second squared).
    pub gravity: Vec3,
    /// Where particles are born.
    pub origin: Vec3,
    /// Bounds of a freshly drawn life span.
    pub min_age: i64,
    pub max_age: i64,
    /// Bounds of the horizontal emission angle.
    pub min_theta: i64,
    pub max_theta: i64,
    /// Bounds of the emission speed (micrometres per second).
    pub min_speed: i64,
    pub max_speed: i64,
}

impl EmitterOptions {
    /// Each pair of bounds is ordered.
    pub open spec fn bounds_ordered(self) -> bool {
        &&& self.min_age <= self.max_age
        &&& self.min_theta <= self.max_theta
        &&& self.min_speed <= self.max_speed
    }

    pub open spec fn spec_life(self, t: u8) -> int {
        lerp(self.min_age as int, self.max_age as int, t as int)
    }

    pub open spec fn spec_angle(self, t: u8) -> int {
        lerp(self.min_theta as int, self.max_theta as int, t as int)
    }

    pub open spec fn spec_speed(self, t: u8) -> int {
        lerp(self.min_speed as int, self.max_speed as int, t as int)
    }

    /// The life span that the random byte `t` draws.
    pub fn life_for(&self, t: u8) -> (r: i64)
        ensures
            r == self.spec_life(t),
    {
        lerp_byte(self.min_age, self.max_age, t)
    }

    /// The emission angle that the random byte `t` draws.
    pub fn angle_for(&self, t: u8) -> (r: i64)
        ensures
            r == self.spec_angle(t),
    {
        lerp_byte(self.min_theta, self.max_theta, t)
    }

    /// The emission speed that the random byte `t` draws.
    pub fn speed_for(&self, t: u8) -> (r: i64)
        ensures
            r == self.spec_speed(t),
    {
        lerp_byte(self.min_speed, self.max_speed, t)
    }
}

/// Every drawn life span, angle and speed lies within the emitter's bounds.
pub proof fn lemma_samples_within_bounds(options: EmitterOptions, t: u8)
    requires
        options.bounds_ordered(),
    ensures
        options.min_age <= options.spec_life(t) <= options.max_age,
        options.min_theta <= options.spec_angle(t) <= options.max_theta,
        options.min_speed <= options.spec_speed(t) <= options.max_speed,
{
    lemma_lerp_between(options.min_age as int, options.max_age as int, t as int);
    lemma_lerp_between(options.min_theta as int, options.max_theta as int, t as int);
    lemma_lerp_between(options.min_speed as int, options.max_speed as int, t as int);
}

impl Default for EmitterOptions {
    /// 800 particles at rest at the origin with no gravity, living 0.3 to 0.9 s,
    /// emitted at any angle in [-pi, pi] with a speed of 0.5 to 1.
    fn default() -> (r: Self)
        ensures
            r.num_particles == 800,
            r.gravity == (Vec3 { x: 0, y: 0, z: 0 }),
            r.origin == (Vec3 { x: 0, y: 0, z: 0 }),
            r.min_age == 300_000 && r.max_age == 900_000,
            r.min_theta == -3_141_593 && r.max_theta == 3_141_593,
            r.min_speed == 500_000 && r.max_speed == SCALE,
    {
        EmitterOptions {
            num_particles: 800,
            gravity: Vec3::zero(),
            origin: Vec3::zero(),
            min_age: 300_000,
            max_age: 900_000,
            min_theta: -3_141_593,
            max_theta: 3_141_593,
            min_speed: 500_000,
            max_speed: SCALE,
        }
    }
}

} // verus!
