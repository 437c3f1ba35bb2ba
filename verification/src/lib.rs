//! A minimal real-time simulation core: axis-aligned rectangular bodies move
//! at constant velocity on a 2D plane, one body is driven by directional
//! input, and movement that would make the controlled body overlap another
//! body is undone within the same tick.
//!
//! The core is the fixed-rate simulation step: clock gating, position
//! integration, axis-aligned bounding-box overlap testing, and the collision
//! resolution policy. Window creation, input reading and rendering are left
//! to the hosting presentation layer, which feeds plain values in and reads
//! the body list back out.

pub mod body;
pub mod clock;
pub mod input;
pub mod sim;
