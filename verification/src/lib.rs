//! Geometry and visibility decisions for a topbar overlay window.
//!
//! The crate holds the rules of a small window controller: where a topbar
//! window goes on a monitor, how a toggle of a window's visibility proceeds,
//! and which request a host shell has to carry out next. It performs no
//! window-system call itself; a host drives it with replies and applies the
//! requests it hands out.

pub mod controller;
pub mod error;
pub mod geometry;
pub mod greeting;
pub mod rounding;
pub mod runs;
pub mod scale;
