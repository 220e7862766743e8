//! Deployment pipeline for smart-contract artifacts: stage sequencing,
//! precondition checks, artifact paths and constructor-argument normalization.

pub mod text;
pub mod constructor;
pub mod artifact;
pub mod command;
pub mod pipeline;
pub mod runs;
pub mod probe;
