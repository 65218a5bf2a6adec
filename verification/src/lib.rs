//! Verified core of a heat map generator: points in the plane, or on the
//! globe, become a raster in which each cell holds the kernel-weighted sum of
//! the values of the points around it.
//!
//! The arithmetic on coordinates, distances and weights is done in double
//! precision by the program that uses this library. What is verified here is
//! everything around that arithmetic:
//!
//! - [`ordinal`]: integer codes that order doubles as the doubles are ordered,
//!   so that the rest can compare and index coordinates as integers;
//! - [`dataset`]: the points while they are read, with their span;
//! - [`index`]: the spatial index over the points and its box queries;
//! - [`extent`]: where each bound of the rasterized region comes from;
//! - [`grid`]: the cells of the raster and the order in which they are emitted;
//! - [`kernel`]: the choice of the kernel and the rule by which a point takes
//!   part in a cell;
//! - [`sink`]: the choice of the output;
//! - [`error`]: the failures and the stages at which they arise;
//! - [`text`]: comparisons of words.

pub mod dataset;
pub mod error;
pub mod extent;
pub mod grid;
pub mod index;
pub mod kernel;
pub mod ordinal;
pub mod sink;
pub mod text;
