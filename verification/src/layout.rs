//! Where things are drawn: the shapes of racket and ball round their centres,
//! and the corners of the two centred lines of text.

use vstd::prelude::*;
use crate::constants::BALL_SIZE;
use crate::constants::BALL_SIZE_HALF;
use crate::constants::RACKET_HEIGHT;
use crate::constants::RACKET_HEIGHT_HALF;
use crate::constants::RACKET_WIDTH;
use crate::constants::RACKET_WIDTH_HALF;
use crate::fixed::PIXEL;
use crate::geometry::Pair;
use crate::geometry::Point;

verus! {

/// A rectangle: its top-left corner and its size.
#[derive(Clone, Copy, Debug, PartialEq, Eq, Structural)]
pub struct Rect {
    pub x: i64,
    pub y: i64,
    pub w: i64,
    pub h: i64,
}

/// The height at which the score line is centred.
pub const SCORE_LINE_Y: i64 = 40 * PIXEL;

/// The height at which the pause text is centred.
pub const PAUSE_LINE_Y: i64 = 20 * PIXEL;

/// The top-left corner of a text of `text_w` by `text_h` pixels whose centre
/// is half-way across the playfield, at height `line_y`.
pub open spec fn text_origin(screen_w: int, line_y: int, text_w: int, text_h: int) -> Pair {
    Pair { x: screen_w / 2 - text_w * PIXEL / 2, y: line_y - text_h * PIXEL / 2 }
}

/// A racket's rectangle, relative to its centre.
pub fn racket_rect() -> (rect: Rect)
    ensures
        rect == (Rect {
            x: (-RACKET_WIDTH_HALF) as i64,
            y: (-RACKET_HEIGHT_HALF) as i64,
            w: RACKET_WIDTH,
            h: RACKET_HEIGHT,
        }),
{
    Rect { x: -RACKET_WIDTH_HALF, y: -RACKET_HEIGHT_HALF, w: RACKET_WIDTH, h: RACKET_HEIGHT }
}

/// The ball's square, relative to its centre.
pub fn ball_rect() -> (rect: Rect)
    ensures
        rect == (Rect {
            x: (-BALL_SIZE_HALF) as i64,
            y: (-BALL_SIZE_HALF) as i64,
            w: BALL_SIZE,
            h: BALL_SIZE,
        }),
{
    Rect { x: -BALL_SIZE_HALF, y: -BALL_SIZE_HALF, w: BALL_SIZE, h: BALL_SIZE }
}

/// The corner at which to draw the score line, given its size in pixels.
pub fn score_line_origin(screen_w: u32, text_w: u32, text_h: u32) -> (origin: Point)
    ensures
        origin@ == text_origin(screen_w as int, SCORE_LINE_Y as int, text_w as int, text_h as int),
{
    Point {
        x: (screen_w / 2) as i64 - text_w as i64 * PIXEL / 2,
        y: SCORE_LINE_Y - text_h as i64 * PIXEL / 2,
    }
}

/// The corner at which to draw the pause text, given its size in pixels.
pub fn pause_line_origin(screen_w: u32, text_w: u32, text_h: u32) -> (origin: Point)
    ensures
        origin@ == text_origin(screen_w as int, PAUSE_LINE_Y as int, text_w as int, text_h as int),
{
    Point {
        x: (screen_w / 2) as i64 - text_w as i64 * PIXEL / 2,
        y: PAUSE_LINE_Y - text_h as i64 * PIXEL / 2,
    }
}

} // verus!
