//! Core gameplay logic for a third-person shooter prototype: procedural
//! music pattern generation, the network event wire format, countdown
//! timers, and the integer decision rules behind combat, explosions and
//! tree uprooting. Engine plumbing (rendering, physics, audio output,
//! sockets) lives outside this library.

pub mod bullet;
pub mod codec;
pub mod explosion;
pub mod geometry;
pub mod levels;
pub mod music;
mod rng;
pub mod rules;
mod seq_util;
pub mod skybox;
pub mod timer;
pub mod world;
