//! A batched cart-pole environment: batch state, dynamics, action selection,
//! rollout bookkeeping and per-episode recordings.
//!
//! The scalar type of the simulation is a type parameter. The layout and
//! control logic never inspect a scalar. The dynamics reach scalars only
//! through `physics::ScalarOps`, the host's arithmetic, whose operations are
//! named by spec functions: the contracts state each computed value as the
//! formula over those operations, and say nothing of the numbers themselves.
pub mod physics;
pub mod policy;
pub mod record;
pub mod rollout;
pub mod state;
