//! Procedural assembly of a block world: a library of prefabricated modules,
//! a learned table of likely successor placements, and growth processes that
//! extend islands one module at a time, rejecting placements that would
//! overlap geometry committed earlier.
//!
//! The world model is integer-valued and translation-only: a pose is the
//! translation of a module instance in world units, and bounding volumes
//! stay axis-aligned.

pub mod geom;
pub mod library;
pub mod registry;
pub mod rng;
pub mod sampler;
pub mod island;
pub mod world;
