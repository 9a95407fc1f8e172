//! Resonance: display-state model, automation rules engine and the decision
//! logic of the display control plane.

pub mod text;
pub mod model;
pub mod rules;
pub mod conductor;
pub mod config;
pub mod guard;
pub mod display;
pub mod dpi;
pub mod vendor;
pub mod tuner;
pub mod doctor;
pub mod world;
pub mod probe;
pub mod cli;
pub mod chamber;
pub mod confirm;
