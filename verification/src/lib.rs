//! Verified decision logic for a third-person character controller.
//!
//! The library isolates the rules that drive a small 3D character
//! prototype: how the four direction keys and the jump key become
//! movement actions, when a downward shape cast counts as standing on
//! ground, which velocity change each action causes, and how zoom and
//! pitch inputs are confined to their legal ranges. Every rule is an
//! executable function with a contract that pins its result exactly.
//!
//! Magnitudes that the host engine handles in floating point (speeds,
//! distances, angles) appear here as fixed-point integers: thousandths
//! of a world unit or of a radian. The engine-facing binary converts at
//! the boundary and keeps rendering, physics simulation and input
//! plumbing to itself.

pub mod camera;
pub mod grounding;
pub mod input;
pub mod motion;
