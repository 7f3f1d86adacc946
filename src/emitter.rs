//! A particle field (an emitter) with its two buffers, and the simulation
//! stage that advances a field by one time step. The same per-record rule runs
//! on the device as the update kernel; this is its host-side form, in which
//! the field's invariants are stated and proved.

use vstd::prelude::*;
use crate::fixed::Vec3;
use crate::generation::Generation;
use crate::noise::NoiseSource;
use crate::options::EmitterOptions;
use crate::particle::{
    lemma_zero_step_is_identity, record_components, seed, seeded, step, stepped, Particle,
    DIRECTION_COUNT,
};

verus! {

/// Why a field could not be created.
#[derive(Clone, Copy, PartialEq, Eq, Structural, Debug)]
pub enum SetupError {
    /// The direction table does not hold one direction per byte value.
    DirectionCount,
    /// There is not exactly one random byte per particle.
    DrawCount,
    /// A seeded value leaves the range of the fixed-point numbers.
    OutOfRange,
}

/// Why a field could not be advanced. The field is left as it was.
#[derive(Clone, Copy, PartialEq, Eq, Structural, Debug)]
pub enum UpdateError {
    /// The time step is negative.
    NegativeDelta,
    /// An updated value leaves the range of the fixed-point numbers.
    OutOfRange,
}

/// Every byte of `draws` seeds a particle.
pub open spec fn all_seedable(options: EmitterOptions, draws: Seq<u8>) -> bool {
    forall|i: int| 0 <= i < draws.len() ==> (#[trigger] seeded(options, draws[i])) is Some
}

/// The records of a fresh field: particle `i` seeded from `draws[i]`.
pub open spec fn seeded_field(options: EmitterOptions, draws: Seq<u8>, records: Seq<Particle>) -> bool {
    &&& records.len() == draws.len()
    &&& forall|i: int| 0 <= i < draws.len() ==> Some(#[trigger] records[i]) == seeded(options, draws[i])
}

/// The records of a fresh field, one per byte of `draws`: each at the origin,
/// at rest, with a life span drawn from its byte and an age past it.
pub fn seed_field(options: &EmitterOptions, draws: &Vec<u8>) -> (r: Option<Vec<Particle>>)
    ensures
        r is Some <==> all_seedable(*options, draws@),
        r matches Some(records) ==> seeded_field(*options, draws@, records@),
{
    let mut records: Vec<Particle> = Vec::new();
    let mut i: usize = 0;
    while i < draws.len()
        invariant
            i <= draws@.len(),
            records@.len() == i,
            forall|j: int| 0 <= j < i ==> Some(#[trigger] records@[j]) == seeded(*options, draws@[j]),
        decreases draws@.len() - i,
    {
        match seed(options, draws[i]) {
            Some(p) => records.push(p),
            None => {
                assert(seeded(*options, draws@[i as int]) is None);
                return None;
            },
        }
        i = i + 1;
    }
    assert forall|j: int| 0 <= j < draws@.len() implies (#[trigger] seeded(*options, draws@[j])) is Some by {
        assert(Some(records@[j]) == seeded(*options, draws@[j]));
    }
    Some(records)
}

/// The components of `records`, record after record, each in layout order:
/// the data that a device buffer of the field holds.
pub fn flatten(records: &Vec<Particle>) -> (r: Vec<i64>)
    requires
        records@.len() * 8 <= usize::MAX,
    ensures
        r@.len() == records@.len() * 8,
        forall|i: int, k: int|
            0 <= i < records@.len() && 0 <= k < 8 ==> r@[i * 8 + k] == #[trigger] record_components(
                records@[i],
            )[k],
{
    let mut r: Vec<i64> = Vec::new();
    let mut i: usize = 0;
    while i < records.len()
        invariant
            i <= records@.len(),
            records@.len() * 8 <= usize::MAX,
            r@.len() == i * 8,
            forall|j: int, k: int|
                0 <= j < i && 0 <= k < 8 ==> r@[j * 8 + k] == #[trigger] record_components(
                    records@[j],
                )[k],
        decreases records@.len() - i,
    {
        let c = records[i].components();
        let mut k: usize = 0;
        while k < 8
            invariant
                i < records@.len(),
                c@ == record_components(records@[i as int]),
                c@.len() == 8,
                0 <= k <= 8,
                r@.len() == i * 8 + k,
                forall|j: int, m: int|
                    0 <= j < i && 0 <= m < 8 ==> r@[j * 8 + m] == #[trigger] record_components(
                        records@[j],
                    )[m],
                forall|m: int| 0 <= m < k ==> r@[i * 8 + m] == c@[m],
            decreases 8 - k,
        {
            r.push(c[k]);
            k = k + 1;
        }
        proof {
            assert forall|j: int, m: int|
                0 <= j < i + 1 && 0 <= m < 8 implies r@[j * 8 + m] == #[trigger] record_components(
                records@[j],
            )[m] by {
                if j == i {
                    assert(r@[i * 8 + m] == c@[m]);
                }
            }
        }
        i = i + 1;
    }
    r
}

/// One particle field: its configuration, its emission directions, its
/// generation and its two buffers of records.
pub struct Emitter {
    options: EmitterOptions,
    directions: Vec<Vec3>,
    generation: Generation,
    buffer0: Vec<Particle>,
    buffer1: Vec<Particle>,
}

impl Emitter {
    pub closed spec fn spec_options(&self) -> EmitterOptions {
        self.options
    }

    pub closed spec fn spec_directions(&self) -> Seq<Vec3> {
        self.directions@
    }

    pub closed spec fn spec_generation(&self) -> u64 {
        self.generation.value()
    }

    /// The records of buffer `slot` (0 or 1).
    pub closed spec fn buffer(&self, slot: int) -> Seq<Particle> {
        if slot == 0 {
            self.buffer0@
        } else {
            self.buffer1@
        }
    }

    /// The records of the current generation.
    pub open spec fn current(&self) -> Seq<Particle> {
        self.buffer((self.spec_generation() % 2) as int)
    }

    /// Both buffers hold one record per particle and there is one direction
    /// per byte value.
    pub open spec fn wf(&self) -> bool {
        &&& self.buffer(0).len() == self.spec_options().num_particles
        &&& self.buffer(1).len() == self.spec_options().num_particles
        &&& self.spec_directions().len() == DIRECTION_COUNT
    }

    pub fn options(&self) -> (r: &EmitterOptions)
        ensures
            *r == self.spec_options(),
    {
        &self.options
    }

    pub fn generation(&self) -> (r: Generation)
        ensures
            r.value() == self.spec_generation(),
    {
        self.generation
    }

    /// Particles in the field.
    pub fn num_particles(&self) -> (r: u32)
        ensures
            r == self.spec_options().num_particles,
    {
        self.options.num_particles
    }

    /// The buffer that holds the current generation: the one the render stage
    /// draws.
    pub fn render_slot(&self) -> (r: usize)
        ensures
            r == self.spec_generation() % 2,
    {
        self.generation.read_slot()
    }

    /// The records of buffer `slot`.
    pub fn records(&self, slot: usize) -> (r: &Vec<Particle>)
        requires
            slot < 2,
        ensures
            r@ == self.buffer(slot as int),
    {
        if slot == 0 {
            &self.buffer0
        } else {
            &self.buffer1
        }
    }

    /// The records of the current generation.
    pub fn current_records(&self) -> (r: &Vec<Particle>)
        ensures
            r@ == self.current(),
    {
        self.records(self.render_slot())
    }
}

/// The simulation stage: it advances fields by drawing the randomness of
/// respawns from its noise source.
pub struct UpdateSystem {
    noise: NoiseSource,
}

impl UpdateSystem {
    pub closed spec fn spec_noise(&self) -> NoiseSource {
        self.noise
    }

    pub open spec fn wf(&self) -> bool {
        self.spec_noise().wf()
    }

    /// What particle `i` of `e` becomes on a pass of `delta` from the current
    /// generation.
    pub open spec fn next_record(&self, e: &Emitter, delta: int, i: int) -> Option<Particle> {
        stepped(
            e.current()[i],
            delta,
            e.spec_options(),
            e.spec_directions(),
            self.spec_noise().spec_draw(i, e.spec_generation() as int),
        )
    }

    /// Every particle of `e` has a next state on a pass of `delta`.
    pub open spec fn can_step(&self, e: &Emitter, delta: int) -> bool {
        forall|i: int| 0 <= i < e.current().len() ==> (#[trigger] self.next_record(e, delta, i)) is Some
    }

    pub fn new(noise: NoiseSource) -> (r: UpdateSystem)
        requires
            noise.wf(),
        ensures
            r.wf(),
            r.spec_noise() == noise,
    {
        UpdateSystem { noise }
    }

    pub fn noise(&self) -> (r: &NoiseSource)
        ensures
            *r == self.spec_noise(),
    {
        &self.noise
    }

    /// A fresh field at generation zero whose two buffers both hold the seeded
    /// records, particle `i` seeded from `draws[i]`. `directions[k]` is the
    /// emission direction of the angle that byte `k` draws.
    pub fn create_emitter(&self, options: EmitterOptions, directions: Vec<Vec3>, draws: &Vec<u8>) -> (r: Result<Emitter, SetupError>)
        ensures
            directions@.len() != DIRECTION_COUNT <==> r == Err::<Emitter, SetupError>(SetupError::DirectionCount),
            (directions@.len() == DIRECTION_COUNT && draws@.len() != options.num_particles)
                <==> r == Err::<Emitter, SetupError>(SetupError::DrawCount),
            (directions@.len() == DIRECTION_COUNT && draws@.len() == options.num_particles
                && !all_seedable(options, draws@)) <==> r == Err::<Emitter, SetupError>(SetupError::OutOfRange),
            r matches Ok(e) ==> {
                &&& e.wf()
                &&& e.spec_options() == options
                &&& e.spec_directions() == directions@
                &&& e.spec_generation() == 0
                &&& seeded_field(options, draws@, e.buffer(0))
                &&& e.buffer(1) == e.buffer(0)
            },
    {
        if directions.len() != DIRECTION_COUNT {
            return Err(SetupError::DirectionCount);
        }
        if draws.len() as u64 != options.num_particles as u64 {
            return Err(SetupError::DrawCount);
        }
        match seed_field(&options, draws) {
            Some(records) => {
                let copy = records.clone();
                Ok(Emitter {
                    options,
                    directions,
                    generation: Generation::new(),
                    buffer0: records,
                    buffer1: copy,
                })
            },
            None => Err(SetupError::OutOfRange),
        }
    }
    /// Advances `emitter` by one pass of `delta`. Every particle of the current
    /// buffer is stepped (respawned if its life is exhausted, integrated
    /// otherwise) into the other buffer, which becomes current: the generation
    /// grows by one and the buffer that was read is left as it was. On an error
    /// the field is unchanged.
    pub fn update(&self, emitter: &mut Emitter, delta: i64) -> (r: Result<(), UpdateError>)
        requires
            self.wf(),
            old(emitter).wf(),
            old(emitter).spec_generation() < u64::MAX,
        ensures
            delta < 0 <==> r == Err::<(), UpdateError>(UpdateError::NegativeDelta),
            (delta >= 0 && !self.can_step(old(emitter), delta as int))
                <==> r == Err::<(), UpdateError>(UpdateError::OutOfRange),
            r is Err ==> *final(emitter) == *old(emitter),
            r is Ok ==> {
                &&& final(emitter).wf()
                &&& final(emitter).spec_options() == old(emitter).spec_options()
                &&& final(emitter).spec_directions() == old(emitter).spec_directions()
                &&& final(emitter).spec_generation() == old(emitter).spec_generation() + 1
                &&& final(emitter).current().len() == old(emitter).current().len()
                &&& forall|i: int| 0 <= i < old(emitter).current().len()
                    ==> Some(#[trigger] final(emitter).current()[i]) == self.next_record(old(emitter), delta as int, i)
                &&& final(emitter).buffer((old(emitter).spec_generation() % 2) as int) == old(emitter).current()
            },
    {
        if delta < 0 {
            return Err(UpdateError::NegativeDelta);
        }
        let generation = emitter.generation.get();
        let read = emitter.generation.read_slot();
        let write = emitter.generation.write_slot();
        let mut out: Vec<Particle> = Vec::new();
        {
            let source = emitter.records(read);
            let mut i: usize = 0;
            while i < source.len()
                invariant
                    self.wf(),
                    delta >= 0,
                    *emitter == *old(emitter),
                    emitter.wf(),
                    source@ == emitter.current(),
                    generation == emitter.spec_generation(),
                    i <= source@.len(),
                    out@.len() == i,
                    forall|j: int| 0 <= j < i ==> Some(#[trigger] out@[j]) == self.next_record(emitter, delta as int, j),
                decreases source@.len() - i,
            {
                let draw = self.noise.draw(i, generation);
                match step(&source[i], delta, &emitter.options, &emitter.directions, draw) {
                    Some(p) => out.push(p),
                    None => {
                        assert(self.next_record(emitter, delta as int, i as int) is None);
                        return Err(UpdateError::OutOfRange);
                    },
                }
                i = i + 1;
            }
        }
        assert forall|j: int| 0 <= j < emitter.current().len() implies (#[trigger] self.next_record(emitter, delta as int, j)) is Some by {
            assert(Some(out@[j]) == self.next_record(emitter, delta as int, j));
        }
        if write == 0 {
            emitter.buffer0 = out;
        } else {
            emitter.buffer1 = out;
        }
        emitter.generation.advance();
        Ok(())
    }
}


/// A pass of zero time leaves every living particle of a field (one whose age
/// has not passed its life span) exactly as it was.
pub proof fn lemma_zero_delta_keeps_living(system: &UpdateSystem, e: &Emitter, i: int)
    requires
        0 <= i < e.current().len(),
        e.current()[i].age <= e.current()[i].life,
    ensures
        system.next_record(e, 0, i) == Some(e.current()[i]),
{
    lemma_zero_step_is_identity(
        e.current()[i],
        e.spec_options(),
        e.spec_directions(),
        system.spec_noise().spec_draw(i, e.spec_generation() as int),
    );
}

} // verus!
