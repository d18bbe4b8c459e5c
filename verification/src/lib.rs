//! Runtime logic of a 2D color-channel puzzle game.
//!
//! Crystals (activation sources) broadcast activation on a color channel
//! while activators press them; gates (activation sinks) on the same channel
//! open and close in response, driven toward their target position by a
//! bounded-speed kinematic controller; a session lifecycle state machine
//! sequences level teardown, level loading and the physics-enable flag.

pub mod color_code;
pub mod gate;
pub mod lifecycle;
