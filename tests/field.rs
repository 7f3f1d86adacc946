use particles::generation::Generation;
use particles::particle::{integrate, respawn, seed, step};
use particles::{
    flatten, seed_field, Emitter, EmitterOptions, NoiseSource, Particle, RespawnDraw, SetupError,
    UpdateError, UpdateSystem, Vec3, DIRECTION_COUNT, NOISE_SIDE, SCALE,
};

fn v(x: i64, y: i64, z: i64) -> Vec3 {
    Vec3 { x, y, z }
}

/// Deterministic pseudo-random bytes.
fn bytes(n: usize, mut state: u64) -> Vec<u8> {
    let mut out = Vec::with_capacity(n);
    for _ in 0..n {
        state = state.wrapping_mul(6364136223846793005).wrapping_add(1442695040888963407);
        out.push((state >> 56) as u8);
    }
    out
}

/// The horizontal unit direction of each angle that a byte draws.
fn directions(o: &EmitterOptions) -> Vec<Vec3> {
    (0..=255u8)
        .map(|k| {
            let theta = o.angle_for(k) as f64 / SCALE as f64;
            v((theta.cos() * SCALE as f64) as i64, 0, (theta.sin() * SCALE as f64) as i64)
        })
        .collect()
}

fn system() -> UpdateSystem {
    let side = NOISE_SIDE as usize;
    let noise = NoiseSource::new(NOISE_SIDE, NOISE_SIDE, bytes(side * side * 2, 7)).unwrap();
    UpdateSystem::new(noise)
}

fn scenario_options() -> EmitterOptions {
    EmitterOptions { gravity: v(0, -2 * SCALE, 0), ..EmitterOptions::default() }
}

fn field(sys: &UpdateSystem, o: EmitterOptions) -> Emitter {
    let draws = bytes(o.num_particles as usize, 11);
    sys.create_emitter(o, directions(&o), &draws).unwrap()
}

#[test]
fn noise_source_checks_its_size() {
    assert!(NoiseSource::new(2, 3, vec![0; 12]).is_some());
    assert!(NoiseSource::new(2, 3, vec![0; 11]).is_none());
    assert!(NoiseSource::new(0, 3, vec![]).is_none());
    assert!(NoiseSource::new(3, 0, vec![]).is_none());
    let n = NoiseSource::new(2, 1, vec![1, 2, 3, 4]).unwrap();
    assert_eq!((n.width(), n.height()), (2, 1));
    assert_eq!(n.data(), &vec![1, 2, 3, 4]);
}

#[test]
fn noise_draw_follows_index_and_generation() {
    let n = NoiseSource::new(3, 1, vec![10, 11, 20, 21, 30, 31]).unwrap();
    assert_eq!(n.texel_index(0, 0), 0);
    assert_eq!(n.texel_index(2, 0), 2);
    assert_eq!(n.texel_index(2, 1), 0);
    assert_eq!(n.texel_index(1, u64::MAX), (1 + (u64::MAX % 3) as usize) % 3);
    assert_eq!(n.draw(0, 0), RespawnDraw { life: 20, angle: 10, speed: 11 });
    assert_eq!(n.draw(2, 0), RespawnDraw { life: 10, angle: 30, speed: 31 });
    assert_eq!(n.draw(1, 1), RespawnDraw { life: 10, angle: 30, speed: 31 });
}

#[test]
fn generation_parity() {
    let mut g = Generation::new();
    assert_eq!(g.get(), 0);
    assert_eq!((g.read_slot(), g.write_slot()), (0, 1));
    g.advance();
    assert_eq!(g.get(), 1);
    assert_eq!((g.read_slot(), g.write_slot()), (1, 0));
    g.advance();
    assert_eq!((g.get(), g.read_slot(), g.write_slot()), (2, 0, 1));
}

#[test]
fn integration_step_values() {
    let p = Particle { position: v(0, 1_000_000, 0), age: 100_000, life: 500_000, velocity: v(1_000_000, 0, 0) };
    let q = integrate(&p, v(0, -2_000_000, 0), 16_000).unwrap();
    assert_eq!(q.velocity, v(1_000_000, -32_000, 0));
    assert_eq!(q.position, v(16_000, 999_488, 0));
    assert_eq!(q.age, 116_000);
    assert_eq!(q.life, 500_000);
    let far = Particle { position: v(i64::MAX, 0, 0), ..p };
    assert_eq!(integrate(&far, v(0, 0, 0), 16_000), None);
}

#[test]
fn respawn_values() {
    let o = EmitterOptions { origin: v(5, 6, 7), ..EmitterOptions::default() };
    let q = respawn(&o, v(SCALE, 0, 0), RespawnDraw { life: 255, angle: 0, speed: 0 }).unwrap();
    assert_eq!(q, Particle { position: v(5, 6, 7), age: 0, life: 900_000, velocity: v(500_000, 0, 0) });
    let q = respawn(&o, v(0, 0, -SCALE), RespawnDraw { life: 0, angle: 0, speed: 255 }).unwrap();
    assert_eq!(q, Particle { position: v(5, 6, 7), age: 0, life: 300_000, velocity: v(0, 0, -1_000_000) });
}

#[test]
fn step_chooses_respawn_or_integration() {
    let o = EmitterOptions { gravity: v(0, -2 * SCALE, 0), ..EmitterOptions::default() };
    let dirs = directions(&o);
    let draw = RespawnDraw { life: 0, angle: 0, speed: 0 };
    let alive = Particle { position: v(1, 2, 3), age: 0, life: 16_000, velocity: v(0, 0, 0) };
    let q = step(&alive, 16_000, &o, &dirs, draw).unwrap();
    assert_eq!(q.age, 16_000);
    assert_eq!(q.velocity, v(0, -32_000, 0));
    let q = step(&alive, 16_001, &o, &dirs, draw).unwrap();
    assert_eq!((q.position, q.age, q.life), (v(0, 0, 0), 0, 300_000));
}

#[test]
fn seeding_forces_a_first_respawn() {
    let o = EmitterOptions { origin: v(1, 2, 3), ..EmitterOptions::default() };
    let p = seed(&o, 255).unwrap();
    assert_eq!(p, Particle { position: v(1, 2, 3), age: 1_900_000, life: 900_000, velocity: v(0, 0, 0) });
    let high = EmitterOptions { min_age: i64::MAX, max_age: i64::MAX, ..o };
    assert_eq!(seed(&high, 0), None);
    let recs = seed_field(&o, &vec![0, 255]).unwrap();
    assert_eq!(recs.len(), 2);
    assert_eq!(recs[0].life, 300_000);
    assert_eq!(recs[0].age, 1_300_000);
    assert_eq!(seed_field(&high, &vec![0]), None);
}

#[test]
fn records_flatten_in_layout_order() {
    let p = Particle { position: v(1, 2, 3), age: 4, life: 5, velocity: v(6, 7, 8) };
    assert_eq!(p.components(), vec![1, 2, 3, 4, 5, 6, 7, 8]);
    let q = Particle { position: v(9, 10, 11), age: 12, life: 13, velocity: v(14, 15, 16) };
    assert_eq!(flatten(&vec![p, q]), (1..=16).collect::<Vec<i64>>());
    assert_eq!(flatten(&vec![]), Vec::<i64>::new());
}

#[test]
fn create_emitter_errors() {
    let sys = system();
    let o = EmitterOptions { num_particles: 3, ..EmitterOptions::default() };
    let short = vec![v(SCALE, 0, 0); DIRECTION_COUNT - 1];
    assert_eq!(sys.create_emitter(o, short, &vec![0, 0, 0]).err(), Some(SetupError::DirectionCount));
    assert_eq!(sys.create_emitter(o, directions(&o), &vec![0, 0]).err(), Some(SetupError::DrawCount));
    let high = EmitterOptions { max_age: i64::MAX, ..o };
    assert_eq!(sys.create_emitter(high, directions(&o), &vec![0, 255, 0]).err(), Some(SetupError::OutOfRange));
}

#[test]
fn fresh_field_is_seeded_in_both_buffers() {
    let sys = system();
    let o = EmitterOptions { num_particles: 4, ..EmitterOptions::default() };
    let e = sys.create_emitter(o, directions(&o), &vec![0, 85, 170, 255]).unwrap();
    assert_eq!(e.generation().get(), 0);
    assert_eq!(e.render_slot(), 0);
    assert_eq!(e.num_particles(), 4);
    assert_eq!(e.records(0), e.records(1));
    let lives: Vec<i64> = e.current_records().iter().map(|p| p.life).collect();
    assert_eq!(lives, vec![300_000, 500_000, 700_000, 900_000]);
    for p in e.current_records() {
        assert_eq!(p.age, p.life + SCALE);
        assert_eq!(p.position, v(0, 0, 0));
        assert_eq!(p.velocity, v(0, 0, 0));
    }
}

#[test]
fn update_flips_parity_and_keeps_source() {
    let sys = system();
    let mut e = field(&sys, scenario_options());
    for n in 0..5u64 {
        let before = e.current_records().clone();
        let read = e.render_slot();
        assert_eq!(e.generation().get(), n);
        assert_eq!(read as u64, n % 2);
        sys.update(&mut e, 16_000).unwrap();
        assert_eq!(e.generation().get(), n + 1);
        assert_eq!(e.render_slot(), 1 - read);
        assert_eq!(e.records(read), &before);
    }
}

#[test]
fn population_is_constant() {
    let sys = system();
    let mut e = field(&sys, scenario_options());
    for _ in 0..100 {
        sys.update(&mut e, 16_000).unwrap();
        assert_eq!(e.current_records().len(), 800);
        assert_eq!(e.records(0).len(), 800);
        assert_eq!(e.records(1).len(), 800);
    }
}

#[test]
fn update_integrates_and_respawns_per_rule() {
    let sys = system();
    let o = scenario_options();
    let mut e = field(&sys, o);
    sys.update(&mut e, 16_000).unwrap();
    for _ in 0..60 {
        let before = e.current_records().clone();
        let delta = 16_000;
        sys.update(&mut e, delta).unwrap();
        for (p, q) in before.iter().zip(e.current_records()) {
            if p.age + delta > p.life {
                assert_eq!(q.position, o.origin);
                assert_eq!(q.age, 0);
                assert!(o.min_age <= q.life && q.life <= o.max_age);
            } else {
                let vy = p.velocity.y + (o.gravity.y * delta) / SCALE;
                assert_eq!(q.velocity, v(p.velocity.x, vy, p.velocity.z));
                assert_eq!(q.position.y, p.position.y + (vy * delta) / SCALE);
                assert_eq!(q.age, p.age + delta);
                assert_eq!(q.life, p.life);
            }
        }
    }
}

#[test]
fn respawn_samples_stay_within_bounds() {
    let sys = system();
    let o = scenario_options();
    let mut e = field(&sys, o);
    let mut respawns = 0;
    for _ in 0..200 {
        let before = e.current_records().clone();
        sys.update(&mut e, 16_000).unwrap();
        for (p, q) in before.iter().zip(e.current_records()) {
            if p.age + 16_000 > p.life {
                respawns += 1;
                assert!(o.min_age <= q.life && q.life <= o.max_age);
                let speed = ((q.velocity.x as f64).powi(2) + (q.velocity.z as f64).powi(2)).sqrt();
                assert!(speed >= o.min_speed as f64 - 2.0 && speed <= o.max_speed as f64 + 2.0);
                assert_eq!(q.velocity.y, 0);
            }
        }
    }
    assert!(respawns > 800);
}

#[test]
fn zero_delta_leaves_living_particles_unchanged() {
    let sys = system();
    let mut e = field(&sys, scenario_options());
    sys.update(&mut e, 16_000).unwrap();
    sys.update(&mut e, 16_000).unwrap();
    let before = e.current_records().clone();
    sys.update(&mut e, 0).unwrap();
    assert_eq!(e.generation().get(), 3);
    assert_eq!(e.current_records(), &before);
}

#[test]
fn update_rejects_negative_and_out_of_range_steps() {
    let sys = system();
    let mut e = field(&sys, scenario_options());
    assert_eq!(sys.update(&mut e, -1), Err(UpdateError::NegativeDelta));
    assert_eq!(e.generation().get(), 0);
    let far = EmitterOptions { origin: v(i64::MAX, 0, 0), ..scenario_options() };
    let mut e = field(&sys, far);
    sys.update(&mut e, 16_000).unwrap();
    let before = e.current_records().clone();
    assert_eq!(sys.update(&mut e, 16_000), Err(UpdateError::OutOfRange));
    assert_eq!(e.generation().get(), 1);
    assert_eq!(e.current_records(), &before);
}

#[test]
fn first_update_respawns_every_particle() {
    let sys = system();
    let o = scenario_options();
    let mut e = field(&sys, o);
    assert_eq!(e.num_particles(), 800);
    for p in e.current_records() {
        assert_eq!(p.age, p.life + SCALE);
        assert!(p.age > p.life);
    }
    sys.update(&mut e, 16_000).unwrap();
    assert_eq!(e.current_records().len(), 800);
    for q in e.current_records() {
        assert_eq!(q.age, 0);
        assert!(300_000 <= q.life && q.life <= 900_000);
        assert_eq!(q.position, v(0, 0, 0));
    }
}
