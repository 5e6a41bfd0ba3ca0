//! Streaming narrow-band analysis and feedback for a loopback anti-noise
//! pipeline: the per-channel sample ring, the staging stage in front of it,
//! the round-robin transform scheduler, the feedback filter, the render-buffer
//! fill and the coordinator's state machine.
pub mod capture;
pub mod clock;
pub mod config;
pub mod coordinator;
pub mod feedback;
pub mod render;
pub mod ring;
pub mod scheduler;
pub mod staging;
