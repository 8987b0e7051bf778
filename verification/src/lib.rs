//! Triangle meshes for flat shapes.
//!
//! Lines, rectangles and circles, each with an optional stroke and fill, are
//! turned into triangle lists whose order, colour and rotation stamp are
//! proved against a mathematical model, and gathered in batches that give
//! one vertex sequence for one draw call.
//!
//! The arithmetic on real numbers that places the corners is the caller's:
//! coordinates travel through this crate as bit patterns (see
//! [`scalar::Scalar`]) and are never rounded here.
//!
//! - [`scalar`]: numbers by their bits.
//! - [`math`]: points, vectors, matrices and projection bounds.
//! - [`layout`]: vertex formats and binding layouts.
//! - [`kit`]: boxes, colours, sprites, and in [`kit::shape2d`] the shapes,
//!   their meshes, batches and the shape pipeline.

pub mod scalar;
pub mod math;
pub mod layout;
pub mod kit;
