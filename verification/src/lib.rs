//! An embedded-scripting orchestration layer: a canonical value model for
//! marshalling data across the script/host boundary, a source resolver with a
//! size ceiling, a three-tier module registry, an engine lifecycle state
//! machine with an action queue, and a unifier for synchronous and
//! promise-shaped evaluation outcomes.

pub mod convert;
pub mod engine;
pub mod error;
pub mod memory;
pub mod module;
pub mod outcome;
pub mod source;
pub mod text;
pub mod value;
