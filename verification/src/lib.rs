//! A recursive ray tracer for scenes of spheres and a floor under point
//! lights, with shadows, reflection and refraction.
//!
//! [`render::render`] fills a [`framebuffer::FrameBuffer`] with the picture
//! of a scene, and [`framebuffer::FrameBuffer::to_ppm`] gives the picture's
//! bytes. The renderer works over any number type that is a
//! [`scalar::Scalar`], and its contracts hold for every such type whose
//! operations are total functions of their operands. What the surfaces'
//! formulas come to in exact arithmetic is proved in [`exact`].
pub mod exact;
pub mod framebuffer;
pub mod geometry;
pub mod lighting;
pub mod render;
pub mod scalar;
pub mod vector;
