//! The geometric core of a ray caster that draws a small polygon scene onto
//! a grid of character cells.
//!
//! Numbers are binary64 values held by their bit patterns ([`scalar`]). The
//! library holds the data of a scene, points and directions ([`vector`]),
//! transforms ([`transform`]), coordinate frames and what is bound to them
//! ([`frame`]), rays ([`ray`]), polygons ([`polygon`]), objects
//! ([`object`]), the camera and its screen ([`camera`], [`grid`]),
//! and it takes every decision on the way from a ray to a picture
//! ([`hit`], [`scene`]): which plane of a box a ray enters through, whether
//! it meets the box, whether it hits a triangle, which of several hits is
//! the nearest, what a cell shows and where in the picture it goes.
//!
//! It never computes with a number. Sums, products, quotients and roots
//! are worked out by the caller and handed in, and the contracts say what
//! the library makes of them.

pub mod scalar;
pub mod vector;
pub mod transform;
pub mod frame;
pub mod ray;
pub mod polygon;
pub mod hit;
pub mod color;
pub mod object;
pub mod grid;
pub mod camera;
pub mod scene;
