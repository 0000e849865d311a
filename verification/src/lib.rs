//! Core of a black-hole ray tracer.
//!
//! One ray is cast per pixel and classified against the central body, a
//! thin equatorial accretion disk, and the background sky, either in flat
//! space (`euclid`) or by integrating a null geodesic of the Schwarzschild
//! metric (`physics`, `schwarz`). Numbers are fixed-point `i64` raw values
//! at a scale of one million per unit (`fixed`), so every decision a ray
//! takes is integer arithmetic with an exact contract; the caller supplies
//! the few trigonometric values the geodesic needs. `camera` maps pixels to
//! ray directions, `color` holds the sentinel colors and the verified
//! stages of the disk color map, and `render` the pixel partition and
//! start/stop discipline of the worker pool.

pub mod fixed;
pub mod linalg;
pub mod physics;
pub mod camera;
pub mod color;
pub mod euclid;
pub mod schwarz;
pub mod render;
