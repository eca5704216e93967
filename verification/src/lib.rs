//! A first-person camera driven by keyboard and mouse, verified with Verus.
//!
//! The host forwards every input event to a [`render::FrameInput`] and, once
//! per frame, asks it for the values that the shader program needs. All
//! fractional quantities are whole numbers of millionths (see [`fixed`]), so
//! every step of the camera is exact integer arithmetic with a proved contract.

pub mod fixed;
pub mod rotation;
pub mod render;
pub mod laws;
pub mod shaders;
