//! Simulation core of a tower-defense game.
//!
//! All gameplay quantities are fixed-point integers: one world unit, one
//! hit point or one second is stored as 1000 steps, so contracts can state
//! every formula exactly. The surrounding program owns the frame loop, the
//! renderer and the save file; this crate owns the rules: entities and
//! their lifecycles, action resolution, the elemental status machine,
//! targeting, tower skills and upgrades, wave generation, and the per-frame
//! orchestrator.

pub mod catalog;
pub mod defs;
pub mod elemental;
pub mod enemy;
pub mod enemy_types;
pub mod game;
pub mod geom;
pub mod player;
pub mod projectile;
pub mod rng;
pub mod save;
pub mod skill_tree;
pub mod targeting;
pub mod tower;
pub mod units;
pub mod wave;
