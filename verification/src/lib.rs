//! The viewport and magnifier engine of an on-screen zoom viewer.
//!
//! All quantities are fixed-point numbers with six decimal places, held in
//! `i64`; see [`fixed`]. The controllers are pure step functions from a
//! state and one frame's input to the next state.

pub mod camera;
pub mod capture;
pub mod fixed;
pub mod geometry;
pub mod input;
pub mod lens;
pub mod magnifier;
pub mod presenter;
pub mod spotlight;
pub mod startup;
pub mod viewport;
