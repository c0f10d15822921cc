//! A two-paddle, one-ball arcade game on a fixed 320x240 RGBA frame.
//!
//! The crate holds the geometry ([`geometry`]), the update that one tick
//! applies to the world ([`world`]), the rasterizer that paints the world into
//! a byte buffer ([`raster`]) and the wording of failure reports ([`report`]).
//! Opening a window, reading the keyboard and showing the frame are left to
//! the program that uses the crate.
//!
//! Everything is integer arithmetic. Positions and paddle velocities are
//! whole pixels; the velocity of the ball is counted in fractions of a pixel
//! per tick (see [`geometry::SUBPIXELS`]), so that it is exact, and is rounded
//! to whole pixels only when the ball is moved.

pub mod geometry;
pub mod raster;
pub mod report;
pub mod world;
