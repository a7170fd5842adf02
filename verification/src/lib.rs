//! Secondary motion for rigged 2D characters.
//!
//! A driver binds a physics model, its parameters and a target animation
//! parameter, and follows an anchor that the rig moves from frame to frame.
//! This library holds the drivers' data and decides what each driver does in
//! a frame: nothing, emit its held output, or take an integration step and
//! emit the new output. The numeric integration itself is done by the
//! caller, on floating-point numbers; here every number is held by its bit
//! pattern.

pub mod scalar;
pub mod props;
pub mod system;
pub mod driver;
pub mod puppet;
