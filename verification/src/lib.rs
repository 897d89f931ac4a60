//! A reinforcement-learning training core: a generic driver that lets an
//! agent act inside an environment and learn from observed reward.
//!
//! Real-valued quantities (rewards, value estimates, rates) are carried as
//! fixed-point numbers (see [`fixed`]), so every update rule is exact and
//! fully specified.

pub mod agent;
pub mod environment;
pub mod fixed;
pub mod progress;
pub mod rng;
pub mod runner;
pub mod strategy;

pub use fixed::SCALE;
