//! Rusty the ray tracer: the integer and structural core of the renderer.
//!
//! The pixel grid, the layout of the output buffer and the bounce budget of
//! the radiance integrator are verified here; the floating-point geometry
//! and shading live with the program that drives the render.

pub mod camera;
pub mod image;
pub mod integrator;
pub mod objects;
pub mod utils;
