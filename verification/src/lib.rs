//! A spatial cache over fixed-point geographic coordinates.
//!
//! The cache maps regions, axis-aligned boxes tagged with a payload string, to
//! the points they contain: [`cache::CoordinateCache::set`] inserts a region,
//! [`cache::CoordinateCache::get`] answers which region contains a point, and
//! [`cache::CoordinateCache::clear`] forgets them all.
//!
//! Every coordinate that the cache holds is an integer that counts steps of
//! `10^-precision` degrees, so it is always exact at the cache's precision.
//! Lengths on the sphere never enter the crate as numbers to compute with:
//! callers measure them and hand over integers whose order is the order of the
//! lengths. What is decided between two measurements is decided here: whether a
//! box is too large ([`fitter`]), which of several regions at a point is the
//! nearest ([`cache::nearest`]).

pub mod geometry;
pub mod index;
pub mod cache;
pub mod fitter;
