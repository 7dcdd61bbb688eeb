//! A 2D raster-graphics core: paths, paints, gradients, images and a pixel
//! target, with the integer-exact parts of the pipeline verified and the
//! floating-point rasterization delegated to the `raqote` crate.
#![allow(non_camel_case_types)]

pub mod color;
pub mod gradient;
pub mod image;
pub mod modes;
pub mod paint;
pub mod path;
pub mod target;
pub mod transform;
