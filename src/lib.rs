//! A double-buffered particle field: the fixed attribute layout shared by the
//! simulation and render passes, the generation counter whose parity selects
//! the current buffer, the seeding of a fresh field and the per-record update
//! rule, all over fixed-point integers.

pub mod emitter;
pub mod fixed;
pub mod frame;
pub mod generation;
pub mod layout;
pub mod noise;
pub mod options;
pub mod particle;

pub use emitter::{flatten, seed_field, Emitter, SetupError, UpdateError, UpdateSystem};
pub use fixed::{Vec3, SCALE};
pub use frame::{should_update, MAX_STEP};
pub use generation::Generation;
pub use layout::{
    feedback_varyings, render_attributes, update_attributes, Attribute, COMPONENT_BYTES,
    STRIDE_BYTES, STRIDE_COMPONENTS,
};
pub use noise::{NoiseSource, RespawnDraw, NOISE_SIDE};
pub use options::EmitterOptions;
pub use particle::{Particle, DIRECTION_COUNT};
