//! Gameplay-simulation core of a 2D side-view action game: a player entity
//! that spends a "flame" resource, short-lived ember projectiles, flammable
//! terrain blocks, and enemies, all coupled through a collision-driven combat
//! and status-effect resolver.
//!
//! The physics engine, rendering, input, and level-file I/O are external
//! collaborators: they hand this crate plain values (entity ids, contact
//! events, positions, times in milliseconds) and carry out the despawn and
//! impulse requests it returns.  The entry point of a frame is
//! [`world::World::run_tick`]: it resolves the tick's contact events —
//! each physical pair at most once, despawns deferred to the end of the
//! tick — and then runs the continuous systems (flame regeneration,
//! burn-timer expiry, ember decay).

pub mod block;
pub mod ember;
pub mod enemies;
pub mod scorch;
pub mod store;
pub mod tags;
pub mod world;
