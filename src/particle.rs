//! One particle record, how a fresh field seeds it, and the rule by which one
//! simulation pass advances it.

use vstd::prelude::*;
use crate::fixed::{advanced, fits_i64, mul_fx, Vec3, SCALE};
use crate::layout::{Attribute, STRIDE_COMPONENTS};
use crate::noise::RespawnDraw;
use crate::options::EmitterOptions;

verus! {

/// Number of emission directions: one for each value of a random byte.
pub const DIRECTION_COUNT: usize = 256;

/// One particle: where it is, how long it has lived since its last respawn,
/// how long it may live, and how fast it moves.
#[derive(Clone, Copy, PartialEq, Eq, Structural, Debug)]
pub struct Particle {
    pub position: Vec3,
    pub age: i64,
    pub life: i64,
    pub velocity: Vec3,
}

/// `a + v * t` as a vector, meaningful where each component fits.
pub open spec fn advanced_vec(a: Vec3, v: Vec3, t: int) -> Vec3 {
    Vec3 {
        x: advanced(a.x as int, v.x as int, t) as i64,
        y: advanced(a.y as int, v.y as int, t) as i64,
        z: advanced(a.z as int, v.z as int, t) as i64,
    }
}

/// `s * d` as a vector, meaningful where each component fits.
pub open spec fn scaled_vec(s: int, d: Vec3) -> Vec3 {
    Vec3 {
        x: mul_fx(s, d.x as int) as i64,
        y: mul_fx(s, d.y as int) as i64,
        z: mul_fx(s, d.z as int) as i64,
    }
}

impl Particle {
    /// The particle's life is exhausted within a step of `delta`.
    pub open spec fn expires(self, delta: int) -> bool {
        self.age + delta > self.life
    }
}

/// The particle after a step of `delta` under `gravity`: the velocity gains
/// `gravity * delta`, the position then gains the new velocity times `delta`,
/// the age gains `delta`. `None` where a value leaves the range of `i64`.
pub open spec fn integrated(p: Particle, gravity: Vec3, delta: int) -> Option<Particle> {
    let v = advanced_vec(p.velocity, gravity, delta);
    if Vec3::can_advance(p.velocity, gravity, delta) && Vec3::can_advance(p.position, v, delta)
        && fits_i64(p.age + delta) {
        Some(
            Particle {
                position: advanced_vec(p.position, v, delta),
                age: (p.age + delta) as i64,
                life: p.life,
                velocity: v,
            },
        )
    } else {
        None
    }
}

/// A particle born anew at the origin with age zero, a life span and speed
/// drawn from `draw`, moving at that speed along `direction` (a unit vector in
/// fixed point). `None` where the velocity leaves the range of `i64`.
pub open spec fn respawned(options: EmitterOptions, direction: Vec3, draw: RespawnDraw) -> Option<
    Particle,
> {
    let speed = options.spec_speed(draw.speed);
    if Vec3::can_scale(speed, direction) {
        Some(
            Particle {
                position: options.origin,
                age: 0,
                life: options.spec_life(draw.life) as i64,
                velocity: scaled_vec(speed, direction),
            },
        )
    } else {
        None
    }
}

/// One simulation step of `p` by `delta`: a particle whose life is exhausted is
/// respawned, any other is integrated. `directions[k]` is the emission direction
/// of the angle that byte `k` draws.
pub open spec fn stepped(
    p: Particle,
    delta: int,
    options: EmitterOptions,
    directions: Seq<Vec3>,
    draw: RespawnDraw,
) -> Option<Particle> {
    if p.expires(delta) {
        respawned(options, directions[draw.angle as int], draw)
    } else {
        integrated(p, options.gravity, delta)
    }
}

/// The state in which a fresh field holds each particle: at the origin, at
/// rest, with a life span drawn from the byte `t` and an age one second past
/// it, so that the first step respawns it. `None` where that age does not fit.
pub open spec fn seeded(options: EmitterOptions, t: u8) -> Option<Particle> {
    let life = options.spec_life(t);
    if fits_i64(life + SCALE) {
        Some(
            Particle {
                position: options.origin,
                age: (life + SCALE) as i64,
                life: life as i64,
                velocity: Vec3 { x: 0, y: 0, z: 0 },
            },
        )
    } else {
        None
    }
}

/// The record's components in layout order.
pub open spec fn record_components(p: Particle) -> Seq<i64> {
    seq![
        p.position.x,
        p.position.y,
        p.position.z,
        p.age,
        p.life,
        p.velocity.x,
        p.velocity.y,
        p.velocity.z,
    ]
}

/// Integrates `p` by `delta` under `gravity`.
pub fn integrate(p: &Particle, gravity: Vec3, delta: i64) -> (r: Option<Particle>)
    ensures
        r == integrated(*p, gravity, delta as int),
{
    let v = match Vec3::advance(p.velocity, gravity, delta) {
        Some(v) => v,
        None => return None,
    };
    let position = match Vec3::advance(p.position, v, delta) {
        Some(q) => q,
        None => return None,
    };
    let age = match p.age.checked_add(delta) {
        Some(a) => a,
        None => return None,
    };
    Some(Particle { position, age, life: p.life, velocity: v })
}

/// Respawns a particle along `direction` with the quantities that `draw` picks.
pub fn respawn(options: &EmitterOptions, direction: Vec3, draw: RespawnDraw) -> (r: Option<
    Particle,
>)
    ensures
        r == respawned(*options, direction, draw),
{
    let speed = options.speed_for(draw.speed);
    let life = options.life_for(draw.life);
    match Vec3::scale(speed, direction) {
        Some(velocity) => Some(Particle { position: options.origin, age: 0, life, velocity }),
        None => None,
    }
}

/// Advances `p` by one simulation step of `delta`.
pub fn step(
    p: &Particle,
    delta: i64,
    options: &EmitterOptions,
    directions: &Vec<Vec3>,
    draw: RespawnDraw,
) -> (r: Option<Particle>)
    requires
        directions@.len() == DIRECTION_COUNT,
    ensures
        r == stepped(*p, delta as int, *options, directions@, draw),
{
    if p.age as i128 + delta as i128 > p.life as i128 {
        respawn(options, directions[draw.angle as usize], draw)
    } else {
        integrate(p, options.gravity, delta)
    }
}

/// The state in which a fresh field holds a particle whose life span is drawn
/// from the byte `t`.
pub fn seed(options: &EmitterOptions, t: u8) -> (r: Option<Particle>)
    ensures
        r == seeded(*options, t),
{
    let life = options.life_for(t);
    match life.checked_add(SCALE) {
        Some(age) => Some(
            Particle { position: options.origin, age, life, velocity: Vec3::zero() },
        ),
        None => None,
    }
}

impl Particle {
    /// The record's components in layout order: each attribute's components
    /// start at its offset.
    pub fn components(&self) -> (r: Vec<i64>)
        ensures
            r@ == record_components(*self),
            r@.len() == STRIDE_COMPONENTS,
            r@[Attribute::Position.spec_offset() as int] == self.position.x,
            r@[Attribute::Position.spec_offset() + 1] == self.position.y,
            r@[Attribute::Position.spec_offset() + 2] == self.position.z,
            r@[Attribute::Age.spec_offset() as int] == self.age,
            r@[Attribute::Life.spec_offset() as int] == self.life,
            r@[Attribute::Velocity.spec_offset() as int] == self.velocity.x,
            r@[Attribute::Velocity.spec_offset() + 1] == self.velocity.y,
            r@[Attribute::Velocity.spec_offset() + 2] == self.velocity.z,
    {
        let r = vec![
            self.position.x,
            self.position.y,
            self.position.z,
            self.age,
            self.life,
            self.velocity.x,
            self.velocity.y,
            self.velocity.z,
        ];
        assert(r@ =~= record_components(*self));
        r
    }
}


/// A particle whose life is exhausted within the step comes back at the
/// emitter's origin with age zero, and where the emitter's bounds are ordered,
/// with a life span within them.
pub proof fn lemma_respawn_resets(
    p: Particle,
    delta: int,
    options: EmitterOptions,
    directions: Seq<Vec3>,
    draw: RespawnDraw,
)
    requires
        p.expires(delta),
        stepped(p, delta, options, directions, draw) is Some,
    ensures
        ({
            let q = stepped(p, delta, options, directions, draw)->Some_0;
            &&& q.position == options.origin
            &&& q.age == 0
            &&& options.bounds_ordered() ==> options.min_age <= q.life <= options.max_age
        }),
{
    if options.bounds_ordered() {
        crate::options::lemma_samples_within_bounds(options, draw.life);
    }
}

/// A particle that lives on through the step gains `gravity * delta` in
/// velocity, then the new velocity times `delta` in position, and `delta` in
/// age; its life span stays.
pub proof fn lemma_integration(
    p: Particle,
    delta: int,
    options: EmitterOptions,
    directions: Seq<Vec3>,
    draw: RespawnDraw,
)
    requires
        !p.expires(delta),
        stepped(p, delta, options, directions, draw) is Some,
    ensures
        ({
            let q = stepped(p, delta, options, directions, draw)->Some_0;
            &&& q.velocity.is_advanced(p.velocity, options.gravity, delta)
            &&& q.position.is_advanced(p.position, q.velocity, delta)
            &&& q.age == p.age + delta
            &&& q.life == p.life
        }),
{
}

/// A step of zero leaves a living particle exactly as it was.
pub proof fn lemma_zero_step_is_identity(
    p: Particle,
    options: EmitterOptions,
    directions: Seq<Vec3>,
    draw: RespawnDraw,
)
    requires
        p.age <= p.life,
    ensures
        stepped(p, 0, options, directions, draw) == Some(p),
{
    assert(forall|a: int| #[trigger] mul_fx(a, 0) == 0) by {
        assert forall|a: int| #[trigger] mul_fx(a, 0) == 0 by {
            assert(a * 0 == 0);
        }
    }
}

} // verus!
