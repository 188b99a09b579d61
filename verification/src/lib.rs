//! Data model for laying out stringed-instrument fretboards: the measurement
//! and preference types shared by the rendering front ends, with their
//! invariants stated and machine-checked.

pub mod color;
pub mod config;
pub mod handedness;
pub mod open;
mod text;

pub use config::font::Font;
pub use config::font::Weight;
pub use config::Units;
pub use handedness::Handedness;
pub use handedness::ParseHandednessError;
