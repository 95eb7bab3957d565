//! Verified core of a small 2D platformer: the synchronization bridge between
//! an entity store and a rigid-body simulation.
//!
//! The bridge translates entity positions into and out of the simulation's
//! coordinate frame, materializes pending body and collider descriptors into
//! live simulation objects, reconciles positions each tick with a
//! last-writer-wins policy, and runs those steps as a fixed, totally ordered
//! pipeline of phases. The simulation engine itself is a black box driven by
//! the surrounding program; this crate holds the orchestration and data
//! translation around it, verified over an integer model of its state.

pub mod bridge;
pub mod coords;
pub mod game;
pub mod physics;
pub mod schedule;
pub mod world;
