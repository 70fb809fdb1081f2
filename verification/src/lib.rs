//! A small interactive sandbox core: a pan-orbit camera's horizontal
//! orientation snapshot and a pointer pick-and-drag interaction, modelled
//! over fixed-point integer coordinates (micro-units).
//!
//! The host engine (windowing, rendering, physics ray casts) supplies plain
//! values - pointer events, cursor positions, ray-cast outcomes - and this
//! library decides what the interaction does with them: which entity starts
//! being dragged, how a 2D pointer delta moves an entity along the
//! camera-relative axes, and when drag state is cleared.

pub mod aesthetics;
pub mod cube;
pub mod features;
pub mod fixed;
pub mod scene;
