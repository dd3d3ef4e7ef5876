//! Terminal ASCII-art rendering rules: colour effects, brightness ramps,
//! keyboard controls and per-frame bookkeeping, with their contracts.

pub mod color;
pub mod controls;
pub mod frame;
pub mod glitch;
pub mod palette;
pub mod ramp;
mod random;
pub mod text;

