//! A real-time, frame-synchronous audio enhancement engine.
//!
//! The engine accepts fixed-size blocks ("hops") of multi-channel audio,
//! runs them through a stateful noise-suppression model, and returns
//! enhanced audio of identical shape. This crate verifies the engine's
//! call contract: the invariants binding channel count, sample rate and
//! hop size to a fixed model configuration, the per-call shape validation,
//! and the translation of internal failures into caller-visible errors.

pub mod engine;
pub mod errors;
pub mod frame;
pub mod model;

pub use engine::Engine;
pub use errors::ConstructionError;
pub use errors::FrameDim;
pub use errors::ProcessError;
pub use errors::ProcessingError;
pub use errors::ShapeError;
pub use frame::AudioFrame;
