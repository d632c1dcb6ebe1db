//! Driving a four-digit fourteen-segment LED display: glyph encoding, sample
//! smoothing, the controller's wire format and the per-tick rendering logic.
pub mod glyph;
pub mod smoother;
pub mod vk16k33;
pub mod text;
pub mod orchestrator;
