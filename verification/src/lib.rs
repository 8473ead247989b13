//! Developing mosaiced sensor captures: level correction, superpixel
//! demosaicing, development parameters, buffer rotation and the sensor
//! geometry record of a raw container.
//!
//! The library decides which sample goes where and which parameters are
//! acceptable. It never computes on a sample: a mosaic is a buffer of any
//! copyable sample type, and the arithmetic on samples (correcting by levels,
//! averaging two greens) is handed in by the caller as a function.

pub mod cfa;
pub mod develop;
pub mod geometry;
pub mod iad1;
pub mod levels;
pub mod rotate;
pub mod superpixel;
