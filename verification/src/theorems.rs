//! What holds of every frame, whatever the keys, the time step and the
//! chance.

use vstd::prelude::*;
use crate::constants::BALL_SIZE_HALF;
use crate::constants::BALL_SPEED;
use crate::constants::RACKET_HEIGHT;
use crate::constants::RACKET_HEIGHT_HALF;
use crate::color::Color;
use crate::fixed::magnitude;
use crate::geometry::Pair;
use crate::physics::hits_bottom;
use crate::physics::hits_top;
use crate::physics::ball_moved;
use crate::physics::racket_bounced;
use crate::physics::wall_bounced;
use crate::physics::BallModel;
use crate::state::centre;
use crate::state::collided;
use crate::state::initial;
use crate::state::key_applied;
use crate::state::scores;
use crate::state::serve_velocity;
use crate::state::stepped;
use crate::state::GameModel;
use crate::state::Input;
use crate::state::KeyCode;

verus! {

/// Both rackets lie wholly inside a playfield of height `screen_h`.
pub open spec fn rackets_within(m: GameModel, screen_h: int) -> bool {
    &&& RACKET_HEIGHT_HALF <= m.player_1.y <= screen_h - RACKET_HEIGHT_HALF
    &&& RACKET_HEIGHT_HALF <= m.player_2.y <= screen_h - RACKET_HEIGHT_HALF
}

/// On a playfield at least as high as a racket, every frame of a running
/// game leaves both rackets wholly inside the playfield, wherever they were
/// before.
pub proof fn running_frame_keeps_rackets_within(
    m: GameModel,
    input: Input,
    dt: int,
    screen_w: int,
    screen_h: int,
    ball_vel: Pair,
)
    requires
        m.running,
        screen_h >= RACKET_HEIGHT,
    ensures
        rackets_within(stepped(m, input, dt, screen_w, screen_h, ball_vel), screen_h),
{
}

/// On a playfield at least as high as a racket, the game starts with both
/// rackets wholly inside the playfield.
pub proof fn rackets_start_within(screen_w: int, screen_h: int, ball_vel: Pair, color: Color)
    requires
        screen_h >= RACKET_HEIGHT,
    ensures
        rackets_within(initial(screen_w, screen_h, ball_vel, color), screen_h),
{
}

/// Rackets that lie inside the playfield stay inside it through every frame,
/// paused or running, and through every key press.
pub proof fn rackets_stay_within(
    m: GameModel,
    input: Input,
    dt: int,
    screen_w: int,
    screen_h: int,
    ball_vel: Pair,
    key_code: KeyCode,
    fresh: Color,
)
    requires
        rackets_within(m, screen_h),
    ensures
        rackets_within(stepped(m, input, dt, screen_w, screen_h, ball_vel), screen_h),
        rackets_within(key_applied(m, key_code, fresh), screen_h),
{
}

/// A racket hit never slows the ball down: after the rackets had their say,
/// the horizontal speed is at least what it was.
pub proof fn racket_hits_never_slow_the_ball(ball: BallModel, player_1: Pair, player_2: Pair)
    ensures
        magnitude(racket_bounced(ball, player_1, player_2).vel.x) >= magnitude(ball.vel.x),
{
}

/// Through a frame in which nobody scores, the ball's horizontal speed does
/// not decrease.
pub proof fn frame_without_point_never_slows_the_ball(
    m: GameModel,
    input: Input,
    dt: int,
    screen_w: int,
    screen_h: int,
    ball_vel: Pair,
)
    requires
        !scores(m, input, dt, screen_w, screen_h),
    ensures
        magnitude(stepped(m, input, dt, screen_w, screen_h, ball_vel).ball.vel.x) >= magnitude(
            m.ball.vel.x,
        ),
{
    racket_hits_never_slow_the_ball(
        wall_bounced(ball_moved(m.ball, dt), screen_h),
        collided(m, input, dt, screen_h).player_1,
        collided(m, input, dt, screen_h).player_2,
    );
}

/// A frame in which a point is scored ends with the ball in the exact centre
/// of the playfield, at `BALL_SPEED` along each axis.
pub proof fn point_resets_the_ball(
    m: GameModel,
    input: Input,
    dt: int,
    screen_w: int,
    screen_h: int,
    x_positive: bool,
    y_positive: bool,
)
    requires
        scores(m, input, dt, screen_w, screen_h),
    ensures
        ({
            let after = stepped(
                m,
                input,
                dt,
                screen_w,
                screen_h,
                serve_velocity(x_positive, y_positive),
            );
            &&& after.ball.pos == centre(screen_w, screen_h)
            &&& magnitude(after.ball.vel.x) == BALL_SPEED
            &&& magnitude(after.ball.vel.y) == BALL_SPEED
            &&& after.ball.vel.x == (if x_positive {
                BALL_SPEED as int
            } else {
                -BALL_SPEED
            })
            &&& after.ball.vel.y == (if y_positive {
                BALL_SPEED as int
            } else {
                -BALL_SPEED
            })
        }),
{
}

/// A ball that is past the left edge after motion and collisions gives the
/// right side exactly one point and leaves the left side's score alone.
pub proof fn left_exit_scores_for_the_right(
    m: GameModel,
    input: Input,
    dt: int,
    screen_w: int,
    screen_h: int,
    ball_vel: Pair,
)
    requires
        m.running,
        collided(m, input, dt, screen_h).ball.pos.x < 0,
    ensures
        ({
            let after = stepped(m, input, dt, screen_w, screen_h, ball_vel);
            &&& after.player_2_score == m.player_2_score + 1
            &&& after.player_1_score == m.player_1_score
        }),
{
}

/// A ball that is past the right edge after motion and collisions gives the
/// left side exactly one point and leaves the right side's score alone.
pub proof fn right_exit_scores_for_the_left(
    m: GameModel,
    input: Input,
    dt: int,
    screen_w: int,
    screen_h: int,
    ball_vel: Pair,
)
    requires
        m.running,
        screen_w >= 0,
        collided(m, input, dt, screen_h).ball.pos.x > screen_w,
    ensures
        ({
            let after = stepped(m, input, dt, screen_w, screen_h, ball_vel);
            &&& after.player_1_score == m.player_1_score + 1
            &&& after.player_2_score == m.player_2_score
        }),
{
}

/// No frame and no key press ever lowers a score, and a frame without a
/// point leaves both scores alone.
pub proof fn scores_never_decrease(
    m: GameModel,
    input: Input,
    dt: int,
    screen_w: int,
    screen_h: int,
    ball_vel: Pair,
    key_code: KeyCode,
    fresh: Color,
)
    ensures
        ({
            let after = stepped(m, input, dt, screen_w, screen_h, ball_vel);
            &&& after.player_1_score >= m.player_1_score
            &&& after.player_2_score >= m.player_2_score
            &&& !scores(m, input, dt, screen_w, screen_h) ==> after.player_1_score
                == m.player_1_score && after.player_2_score == m.player_2_score
        }),
        key_applied(m, key_code, fresh).player_1_score == m.player_1_score,
        key_applied(m, key_code, fresh).player_2_score == m.player_2_score,
{
}

/// A moving ball whose upper edge is above the playfield is put back against
/// the top wall, heading down.
pub proof fn top_wall_sends_the_ball_down(ball: BallModel, screen_h: int)
    requires
        ball.pos.y - BALL_SIZE_HALF < 0,
        ball.vel.y != 0,
    ensures
        wall_bounced(ball, screen_h).pos.y == BALL_SIZE_HALF,
        wall_bounced(ball, screen_h).vel.y > 0,
{
}

/// A moving ball whose lower edge is below the playfield, and whose upper
/// edge is not above it, is put back against the bottom wall, heading up.
pub proof fn bottom_wall_sends_the_ball_up(ball: BallModel, screen_h: int)
    requires
        ball.pos.y + BALL_SIZE_HALF > screen_h,
        ball.pos.y - BALL_SIZE_HALF >= 0,
        ball.vel.y != 0,
    ensures
        wall_bounced(ball, screen_h).pos.y == screen_h - BALL_SIZE_HALF,
        wall_bounced(ball, screen_h).vel.y < 0,
{
}

/// In a frame of a running game in which nobody scores, a wall that the ball
/// hits after its flight decides where the ball ends up and which way it
/// heads.
pub proof fn frame_ends_against_the_wall_it_hit(
    m: GameModel,
    input: Input,
    dt: int,
    screen_w: int,
    screen_h: int,
    ball_vel: Pair,
)
    requires
        m.running,
        !scores(m, input, dt, screen_w, screen_h),
        m.ball.vel.y != 0,
    ensures
        ({
            let flown = ball_moved(m.ball, dt);
            let after = stepped(m, input, dt, screen_w, screen_h, ball_vel);
            &&& hits_top(flown) ==> after.ball.pos.y == BALL_SIZE_HALF && after.ball.vel.y > 0
            &&& hits_bottom(flown, screen_h) ==> after.ball.pos.y == screen_h - BALL_SIZE_HALF
                && after.ball.vel.y < 0
        }),
{
}

/// While the game is paused, a frame changes nothing.
pub proof fn paused_frame_changes_nothing(
    m: GameModel,
    input: Input,
    dt: int,
    screen_w: int,
    screen_h: int,
    ball_vel: Pair,
)
    requires
        !m.running,
    ensures
        stepped(m, input, dt, screen_w, screen_h, ball_vel) == m,
        !scores(m, input, dt, screen_w, screen_h),
{
}

/// Something that happens to the game: a frame with its keys, its time step
/// and the serve that follows a point, or a key press with the colour that
/// chance offers.
pub enum Event {
    Frame { input: Input, dt: int, ball_vel: Pair },
    Key { key_code: KeyCode, fresh: Color },
}

/// The game after one event on a playfield of the given size.
pub open spec fn applied(m: GameModel, event: Event, screen_w: int, screen_h: int) -> GameModel {
    match event {
        Event::Frame { input, dt, ball_vel } => stepped(m, input, dt, screen_w, screen_h, ball_vel),
        Event::Key { key_code, fresh } => key_applied(m, key_code, fresh),
    }
}

/// The game after a whole history of events, oldest first.
pub open spec fn played(m: GameModel, events: Seq<Event>, screen_w: int, screen_h: int) -> GameModel
    decreases events.len(),
{
    if events.len() == 0 {
        m
    } else {
        applied(played(m, events.drop_last(), screen_w, screen_h), events.last(), screen_w, screen_h)
    }
}

/// Whether `event` is a frame in which a point is scored.
pub open spec fn brings_a_point(m: GameModel, event: Event, screen_w: int, screen_h: int) -> bool {
    match event {
        Event::Frame { input, dt, ball_vel } => scores(m, input, dt, screen_w, screen_h),
        Event::Key { key_code, fresh } => false,
    }
}

/// Rackets that lie inside the playfield lie inside it after any history of
/// frames and key presses.
pub proof fn rackets_within_throughout(
    m: GameModel,
    events: Seq<Event>,
    screen_w: int,
    screen_h: int,
)
    requires
        rackets_within(m, screen_h),
    ensures
        rackets_within(played(m, events, screen_w, screen_h), screen_h),
    decreases events.len(),
{
    if events.len() > 0 {
        rackets_within_throughout(m, events.drop_last(), screen_w, screen_h);
    }
}

/// On a playfield at least as high as a racket, both rackets lie inside the
/// playfield after any history of a new game.
pub proof fn rackets_within_in_every_game(
    screen_w: int,
    screen_h: int,
    ball_vel: Pair,
    color: Color,
    events: Seq<Event>,
)
    requires
        screen_h >= RACKET_HEIGHT,
    ensures
        rackets_within(
            played(initial(screen_w, screen_h, ball_vel, color), events, screen_w, screen_h),
            screen_h,
        ),
{
    rackets_within_throughout(
        initial(screen_w, screen_h, ball_vel, color),
        events,
        screen_w,
        screen_h,
    );
}

/// Over any history in which no point is scored, the ball's horizontal speed
/// does not decrease.
pub proof fn speed_never_decreases_between_points(
    m: GameModel,
    events: Seq<Event>,
    screen_w: int,
    screen_h: int,
)
    requires
        forall|i: int|
            0 <= i < events.len() ==> !brings_a_point(
                played(m, #[trigger] events.take(i), screen_w, screen_h),
                events[i],
                screen_w,
                screen_h,
            ),
    ensures
        magnitude(played(m, events, screen_w, screen_h).ball.vel.x) >= magnitude(m.ball.vel.x),
    decreases events.len(),
{
    if events.len() > 0 {
        let earlier = events.drop_last();
        assert forall|i: int| 0 <= i < earlier.len() implies !brings_a_point(
            played(m, #[trigger] earlier.take(i), screen_w, screen_h),
            earlier[i],
            screen_w,
            screen_h,
        ) by {
            assert(earlier.take(i) =~= events.take(i));
        }
        speed_never_decreases_between_points(m, earlier, screen_w, screen_h);
        let before = played(m, earlier, screen_w, screen_h);
        assert(events.take(events.len() - 1) =~= earlier);
        match events.last() {
            Event::Frame { input, dt, ball_vel } => {
                frame_without_point_never_slows_the_ball(
                    before,
                    input,
                    dt,
                    screen_w,
                    screen_h,
                    ball_vel,
                );
            },
            Event::Key { key_code, fresh } => {},
        }
    }
}

/// No history of frames and key presses ever lowers a score.
pub proof fn scores_never_decrease_throughout(
    m: GameModel,
    events: Seq<Event>,
    screen_w: int,
    screen_h: int,
)
    ensures
        played(m, events, screen_w, screen_h).player_1_score >= m.player_1_score,
        played(m, events, screen_w, screen_h).player_2_score >= m.player_2_score,
    decreases events.len(),
{
    if events.len() > 0 {
        scores_never_decrease_throughout(m, events.drop_last(), screen_w, screen_h);
    }
}

/// A lit colour stays lit through every frame, and through every key press
/// for which chance offers a lit colour.
pub proof fn lit_colour_stays_lit(m: GameModel, event: Event, screen_w: int, screen_h: int)
    requires
        !m.color.is_black(),
        event matches Event::Key { fresh, .. } ==> !fresh.is_black(),
    ensures
        !applied(m, event, screen_w, screen_h).color.is_black(),
{
}

} // verus!
