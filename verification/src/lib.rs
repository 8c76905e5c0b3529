//! A two-player paddle-and-ball game, frame by frame, in saturating
//! fixed-point arithmetic.
//!
//! Lengths are whole thousandths of a pixel, speeds are length units per
//! second and time steps are whole microseconds. Lengths and speeds are
//! stored in 64 bits; a result that would leave that range sticks at the
//! nearest end of it. The host program reads the keyboard, the clock and the
//! size of the window, hands them in as plain values and draws what it gets
//! back.

pub mod fixed;
pub mod constants;
pub mod geometry;
pub mod random;
pub mod color;
pub mod physics;
pub mod text;
pub mod state;
pub mod layout;
pub mod theorems;
