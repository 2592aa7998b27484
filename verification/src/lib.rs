//! Frame pipeline core of a compute-shader raytracer.
//!
//! The crate holds the scene data, lays it out byte for byte as the shader
//! reads it, and decides each frame what has to happen to the render target,
//! the camera buffer and the sphere buffer before the dispatch. It touches no
//! device: the caller carries out what a plan says.
//!
//! Numbers that the shader reads as 32-bit IEEE-754 values are carried by
//! their bit patterns, so every byte that leaves the crate is accounted for.
//! Arithmetic on such numbers is left to the caller; the crate only orders
//! them, where it has to clamp one.

/// The camera and the block of values that the shader reads for it.
pub mod camera;
/// The fixed-step clock of the simulation.
pub mod clock;
/// Workgroup counts of a dispatch.
pub mod dispatch;
/// The plan of a frame.
pub mod frame;
/// The byte layout of the camera block and of the sphere buffer.
pub mod layout;
/// Writing and reading the two buffers.
pub mod pack;
/// Numbers by their bit patterns.
pub mod scalar;
/// The spheres and what an editor may do to them.
pub mod scene;
/// What held keys ask of the camera.
pub mod steering;
/// Size and growth of the sphere buffer on the device.
pub mod storage;
/// Size of the image and when it is replaced.
pub mod target;
/// Vectors of three numbers, and orientations.
pub mod vector;
