//! Motion, the playfield's bounds and collisions.

use vstd::prelude::*;
use crate::constants::BALL_SIZE_HALF;
use crate::constants::BOUNCE_DENOMINATOR;
use crate::constants::BOUNCE_NUMERATOR;
use crate::constants::RACKET_HEIGHT_HALF;
use crate::constants::RACKET_WIDTH_HALF;
use crate::fixed::abs;
use crate::fixed::displacement;
use crate::fixed::magnitude;
use crate::fixed::negate;
use crate::fixed::offset;
use crate::fixed::saturated;
use crate::fixed::scale_magnitude;
use crate::fixed::scaled_magnitude;
use crate::fixed::travel;
use crate::geometry::Pair;
use crate::geometry::Point;
use crate::geometry::Vector;

verus! {

/// The ball: the centre of a square of side `BALL_SIZE`, and its velocity.
#[derive(Clone, Copy, Debug, PartialEq, Eq, Structural)]
pub struct Ball {
    pub pos: Point,
    pub vel: Vector,
}

/// What a `Ball` stands for.
pub struct BallModel {
    pub pos: Pair,
    pub vel: Pair,
}

impl View for Ball {
    type V = BallModel;

    open spec fn view(&self) -> BallModel {
        BallModel { pos: self.pos@, vel: self.vel@ }
    }
}

/// `value` brought into `[low, high]`: `low` where it lies below, else `high`
/// where it lies above.
pub open spec fn clamped(value: int, low: int, high: int) -> int {
    if value < low {
        low
    } else if value > high {
        high
    } else {
        value
    }
}

/// A racket after one key was looked at: shifted by `y_dir` along `y` where
/// the key is held.
pub open spec fn racket_moved(pos: Pair, pressed: bool, y_dir: int) -> Pair {
    if pressed {
        Pair { x: pos.x, y: saturated(pos.y + y_dir) }
    } else {
        pos
    }
}

/// The ball after flying for `dt` microseconds at its velocity.
pub open spec fn ball_moved(ball: BallModel, dt: int) -> BallModel {
    BallModel {
        pos: Pair {
            x: saturated(ball.pos.x + displacement(ball.vel.x, dt)),
            y: saturated(ball.pos.y + displacement(ball.vel.y, dt)),
        },
        vel: ball.vel,
    }
}

/// The ball's upper edge lies above the playfield.
pub open spec fn hits_top(ball: BallModel) -> bool {
    ball.pos.y - BALL_SIZE_HALF < 0
}

/// The ball's lower edge lies below a playfield of height `screen_h`, and its
/// upper edge does not lie above it.
pub open spec fn hits_bottom(ball: BallModel, screen_h: int) -> bool {
    !hits_top(ball) && ball.pos.y + BALL_SIZE_HALF > screen_h
}

/// The ball after the top and bottom walls had their say: put back against
/// the wall it crossed, and heading away from it.
pub open spec fn wall_bounced(ball: BallModel, screen_h: int) -> BallModel {
    if hits_top(ball) {
        BallModel {
            pos: Pair { x: ball.pos.x, y: BALL_SIZE_HALF as int },
            vel: Pair { x: ball.vel.x, y: magnitude(ball.vel.y) },
        }
    } else if hits_bottom(ball, screen_h) {
        BallModel {
            pos: Pair { x: ball.pos.x, y: screen_h - BALL_SIZE_HALF },
            vel: Pair { x: ball.vel.x, y: -magnitude(ball.vel.y) },
        }
    } else {
        ball
    }
}

/// The ball's square and a racket's rectangle overlap.
pub open spec fn overlaps(ball: Pair, racket: Pair) -> bool {
    &&& ball.x - BALL_SIZE_HALF < racket.x + RACKET_WIDTH_HALF
    &&& ball.x + BALL_SIZE_HALF > racket.x - RACKET_WIDTH_HALF
    &&& ball.y - BALL_SIZE_HALF < racket.y + RACKET_HEIGHT_HALF
    &&& ball.y + BALL_SIZE_HALF > racket.y - RACKET_HEIGHT_HALF
}

/// The horizontal speed after a racket hit, without its sign.
pub open spec fn amplified(v: int) -> int {
    scaled_magnitude(v, BOUNCE_NUMERATOR as int, BOUNCE_DENOMINATOR as int)
}

/// The horizontal velocity after the left racket had its say.
pub open spec fn left_bounced(vx: int, ball: Pair, player_1: Pair) -> int {
    if overlaps(ball, player_1) {
        amplified(vx)
    } else {
        vx
    }
}

/// The horizontal velocity after the right racket had its say.
pub open spec fn right_bounced(vx: int, ball: Pair, player_2: Pair) -> int {
    if overlaps(ball, player_2) {
        -amplified(vx)
    } else {
        vx
    }
}

/// The ball after both rackets had their say, the left one first: a racket
/// that the ball overlaps sends it toward the other side, faster; the ball is
/// not moved out of the racket.
pub open spec fn racket_bounced(ball: BallModel, player_1: Pair, player_2: Pair) -> BallModel {
    BallModel {
        pos: ball.pos,
        vel: Pair {
            x: right_bounced(left_bounced(ball.vel.x, ball.pos, player_1), ball.pos, player_2),
            y: ball.vel.y,
        },
    }
}

/// Brings `value` into `[low, high]`.
pub fn clamp(value: &mut i64, low: i64, high: i64)
    ensures
        *final(value) == clamped(*old(value) as int, low as int, high as int),
{
    if *value < low {
        *value = low;
    } else if *value > high {
        *value = high;
    }
}

/// Shifts a racket by `y_dir` along `y` where its key is held.
pub fn move_racket(pos: &mut Point, pressed: bool, y_dir: i64)
    ensures
        final(pos)@ == racket_moved(old(pos)@, pressed, y_dir as int),
{
    if pressed {
        pos.y = offset(pos.y, y_dir);
    }
}

/// The horizontal speed after a racket hit, without its sign.
pub fn amplify(vx: i64) -> (r: i64)
    ensures
        r == amplified(vx as int),
        r >= 0,
{
    scale_magnitude(vx, BOUNCE_NUMERATOR, BOUNCE_DENOMINATOR)
}

impl Ball {
    /// Lets the ball fly for `dt` microseconds.
    pub fn fly(&mut self, dt: u64)
        ensures
            final(self)@ == ball_moved(old(self)@, dt as int),
    {
        self.pos.x = offset(self.pos.x, travel(self.vel.x, dt));
        self.pos.y = offset(self.pos.y, travel(self.vel.y, dt));
    }

    /// Keeps the ball between the top and bottom walls.
    pub fn bounce_off_walls(&mut self, screen_h: u32)
        ensures
            final(self)@ == wall_bounced(old(self)@, screen_h as int),
    {
        let floor: i64 = screen_h as i64 - BALL_SIZE_HALF;
        if self.pos.y < BALL_SIZE_HALF {
            self.pos.y = BALL_SIZE_HALF;
            self.vel.y = abs(self.vel.y);
        } else if self.pos.y > floor {
            self.pos.y = floor;
            self.vel.y = -abs(self.vel.y);
        }
    }

    /// Tells whether the ball's square overlaps the rectangle of the racket
    /// centred at `racket`.
    pub fn intersects(&self, racket: &Point) -> (hit: bool)
        ensures
            hit == overlaps(self@.pos, racket@),
    {
        let ball_x: i128 = self.pos.x as i128;
        let ball_y: i128 = self.pos.y as i128;
        let racket_x: i128 = racket.x as i128;
        let racket_y: i128 = racket.y as i128;
        ball_x - (BALL_SIZE_HALF as i128) < racket_x + (RACKET_WIDTH_HALF as i128)
            && ball_x + (BALL_SIZE_HALF as i128) > racket_x - (RACKET_WIDTH_HALF as i128)
            && ball_y - (BALL_SIZE_HALF as i128) < racket_y + (RACKET_HEIGHT_HALF as i128)
            && ball_y + (BALL_SIZE_HALF as i128) > racket_y - (RACKET_HEIGHT_HALF as i128)
    }

    /// Sends the ball away from each racket that it overlaps, faster.
    pub fn bounce_off_rackets(&mut self, player_1: &Point, player_2: &Point)
        ensures
            final(self)@ == racket_bounced(old(self)@, player_1@, player_2@),
    {
        let intersects_player_1 = self.intersects(player_1);
        if intersects_player_1 {
            self.vel.x = amplify(self.vel.x);
        }
        let intersects_player_2 = self.intersects(player_2);
        if intersects_player_2 {
            self.vel.x = -amplify(self.vel.x);
        }
    }
}

} // verus!
