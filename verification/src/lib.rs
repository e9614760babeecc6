//! Core logic of a small 2D side-view platformer: world composition at
//! startup (camera, character, ground platforms), per-frame keyboard-driven
//! character motion, currency-gated dynamite spawning, and bronze-coin
//! placement and collection. Rendering, windowing, raw input and rigid-body
//! physics belong to an engine outside this crate; the library works on a
//! plain data model of the scene (integer milliunit coordinates) that such
//! an engine can mirror.

pub mod entity;
pub mod geometry;
pub mod input;
pub mod laws;
pub mod money;
pub mod systems;
pub mod world;
