//! A 2D scene camera and affine transforms in exact arithmetic.
//!
//! A [`Camera`] maps the world to the screen, a [`Transform`] maps an
//! object's local coordinates to its parent's. Both build 4x4 homogeneous
//! matrices, and the camera maps points back from the screen to the world.
//! Every coordinate is a [`Rational`]: results are exact, and an operation
//! whose result cannot be represented fails with [`CameraError::Overflow`]
//! and changes nothing.

pub mod algebra;
pub mod camera;
pub mod error;
mod exact;
pub mod gcd;
pub mod laws;
pub mod matrix;
pub mod model;
pub mod pose;
pub mod rational;
pub mod rotation;
pub mod transform;
pub mod vector;

pub use crate::camera::Camera;
pub use crate::error::CameraError;
pub use crate::matrix::Matrix4;
pub use crate::rational::Rational;
pub use crate::rotation::Rotation;
pub use crate::transform::Transform;
pub use crate::vector::{Point2, Vector2, Vector4};
