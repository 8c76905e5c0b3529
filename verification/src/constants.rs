//! The fixed geometry and speeds of the game, in length units and length
//! units per second.

use vstd::prelude::*;
use crate::fixed::PIXEL;

verus! {

pub const RACKET_HEIGHT: i64 = 100 * PIXEL;

pub const RACKET_WIDTH: i64 = 20 * PIXEL;

pub const RACKET_HEIGHT_HALF: i64 = 50 * PIXEL;

pub const RACKET_WIDTH_HALF: i64 = 10 * PIXEL;

/// The gap between a racket and the edge of the playfield behind it.
pub const RACKET_PADDING: i64 = 40 * PIXEL;

pub const BALL_SIZE: i64 = 30 * PIXEL;

pub const BALL_SIZE_HALF: i64 = 15 * PIXEL;

/// How fast a racket moves while its key is held.
pub const PLAYER_SPEED: i64 = 600 * PIXEL;

/// The ball's speed along each axis after every serve.
pub const BALL_SPEED: i64 = 300 * PIXEL;

/// A racket hit multiplies the ball's horizontal speed by
/// `BOUNCE_NUMERATOR / BOUNCE_DENOMINATOR`.
pub const BOUNCE_NUMERATOR: u32 = 11;

pub const BOUNCE_DENOMINATOR: u32 = 10;

} // verus!
