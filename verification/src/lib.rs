//! Hierarchical colour clustering of raster images.
//!
//! An image is cut into regions of uniform colour by the clustering engine
//! of visioncortex. This crate holds what drives the engine, and proves it
//! with Verus:
//!
//! - `color`: when two colours count as the same, and how far apart they are;
//! - `keying`: whether a colour is keyed out of an image as its background;
//! - `rules`: which clusters are split into finer layers, and which are holes;
//! - `runner`: a job, which hands an image, its settings and the rules to the
//!   engine;
//! - `engine`: what the engine is relied on to do;
//! - `segmentation`: the clusters as plain values, and the test that they
//!   partition the pixels;
//! - `capi`, `config`, `conversion`: the settings of a conversion, their
//!   ranges, and the job that they ask for;
//! - `cluster`, `image`, `ieee`: the values that the others work on.

pub mod capi;
pub mod cluster;
pub mod color;
pub mod config;
pub mod conversion;
pub mod engine;
pub mod ieee;
pub mod image;
pub mod keying;
pub mod rules;
pub mod runner;
pub mod segmentation;
