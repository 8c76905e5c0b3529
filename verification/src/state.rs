//! The game's state and its transitions: one frame of play, and one key
//! press.

use vstd::prelude::*;
use crate::color::randomized_color;
use crate::color::white;
use crate::color::Color;
use crate::constants::BALL_SPEED;
use crate::constants::PLAYER_SPEED;
use crate::constants::RACKET_HEIGHT_HALF;
use crate::constants::RACKET_PADDING;
use crate::constants::RACKET_WIDTH_HALF;
use crate::fixed::displacement;
use crate::fixed::travel;
use crate::geometry::Pair;
use crate::geometry::Point;
use crate::geometry::Vector;
use crate::physics::ball_moved;
use crate::physics::clamp;
use crate::physics::clamped;
use crate::physics::move_racket;
use crate::physics::racket_bounced;
use crate::physics::racket_moved;
use crate::physics::wall_bounced;
use crate::physics::Ball;
use crate::physics::BallModel;
use crate::random::oriented;
use crate::random::randomize_vec;
use crate::text::format_score;
use crate::text::format_title;
use crate::text::score_text;
use crate::text::title_text;

verus! {

/// A side of the playfield, and the player who defends it: player 1 on the
/// left, player 2 on the right.
#[derive(Clone, Copy, Debug, PartialEq, Eq, Structural)]
pub enum Side {
    Left,
    Right,
}

/// The keys that are held during a frame, one flag for each racket key.
#[derive(Clone, Copy, Debug, PartialEq, Eq, Structural)]
pub struct Input {
    pub player_1_up: bool,
    pub player_1_down: bool,
    pub player_2_up: bool,
    pub player_2_down: bool,
}

/// A key that went down. Only three keys mean anything to the game.
#[derive(Clone, Copy, Debug, PartialEq, Eq, Structural)]
pub enum KeyCode {
    /// Pauses and resumes.
    Space,
    /// Asks for another colour.
    C,
    /// Ends the game.
    Escape,
    Other,
}

/// What the host loop does after a key press.
#[derive(Clone, Copy, Debug, PartialEq, Eq, Structural)]
pub enum Action {
    Continue,
    Quit,
}

/// The whole game. It starts paused.
#[derive(Clone, Debug, PartialEq, Eq)]
pub struct MainState {
    pub running: bool,
    pub player_1_pos: Point,
    pub player_2_pos: Point,
    pub ball: Ball,
    pub player_1_score: u32,
    pub player_2_score: u32,
    pub color: Color,
    pub pause_text: String,
}

/// What a `MainState` stands for.
pub struct GameModel {
    pub running: bool,
    pub player_1: Pair,
    pub player_2: Pair,
    pub ball: BallModel,
    pub player_1_score: nat,
    pub player_2_score: nat,
    pub color: Color,
    pub pause_text: Seq<char>,
}

impl View for MainState {
    type V = GameModel;

    open spec fn view(&self) -> GameModel {
        GameModel {
            running: self.running,
            player_1: self.player_1_pos@,
            player_2: self.player_2_pos@,
            ball: self.ball@,
            player_1_score: self.player_1_score as nat,
            player_2_score: self.player_2_score as nat,
            color: self.color,
            pause_text: self.pause_text@,
        }
    }
}

/// The message shown before the game was ever started.
pub open spec fn start_prompt() -> Seq<char> {
    "Press Space to Start Game"@
}

/// The message shown once the pause key was pressed at least once.
pub open spec fn resume_prompt() -> Seq<char> {
    "Press Space to Resume Game"@
}

/// The centre of a playfield of the given size, each coordinate rounded down.
pub open spec fn centre(screen_w: int, screen_h: int) -> Pair {
    Pair { x: screen_w / 2, y: screen_h / 2 }
}

/// The game before its first frame: paused, nothing scored, the rackets
/// half-way down their edges and the ball in the centre.
pub open spec fn initial(screen_w: int, screen_h: int, ball_vel: Pair, color: Color) -> GameModel {
    GameModel {
        running: false,
        player_1: Pair { x: RACKET_WIDTH_HALF + RACKET_PADDING, y: screen_h / 2 },
        player_2: Pair { x: screen_w - RACKET_WIDTH_HALF - RACKET_PADDING, y: screen_h / 2 },
        ball: BallModel { pos: centre(screen_w, screen_h), vel: ball_vel },
        player_1_score: 0,
        player_2_score: 0,
        color,
        pause_text: start_prompt(),
    }
}

/// One racket after a frame's keys: up and down each shift it by what
/// `PLAYER_SPEED` covers in `dt`, and both may apply.
pub open spec fn racket_steered(pos: Pair, up: bool, down: bool, dt: int) -> Pair {
    racket_moved(
        racket_moved(pos, up, displacement(-PLAYER_SPEED, dt)),
        down,
        displacement(PLAYER_SPEED as int, dt),
    )
}

/// One racket kept inside a playfield of height `screen_h`.
pub open spec fn racket_clamped(pos: Pair, screen_h: int) -> Pair {
    Pair { x: pos.x, y: clamped(pos.y, RACKET_HEIGHT_HALF as int, screen_h - RACKET_HEIGHT_HALF) }
}

/// The game after motion and collisions, before the score is looked at: the
/// rackets are steered and clamped; the ball flies, then bounces off the
/// walls, then off the clamped rackets.
pub open spec fn collided(m: GameModel, input: Input, dt: int, screen_h: int) -> GameModel {
    let player_1 = racket_clamped(
        racket_steered(m.player_1, input.player_1_up, input.player_1_down, dt),
        screen_h,
    );
    let player_2 = racket_clamped(
        racket_steered(m.player_2, input.player_2_up, input.player_2_down, dt),
        screen_h,
    );
    GameModel {
        player_1,
        player_2,
        ball: racket_bounced(wall_bounced(ball_moved(m.ball, dt), screen_h), player_1, player_2),
        ..m
    }
}

/// Who scores with the ball at `ball_x`: the right side once the ball is past
/// the left edge, the left side once it is past the right edge.
pub open spec fn scorer(ball_x: int, screen_w: int) -> Option<Side> {
    if ball_x < 0 {
        Some(Side::Right)
    } else if ball_x > screen_w {
        Some(Side::Left)
    } else {
        None
    }
}

/// The game after `side` scored: its score is one higher, and the ball is
/// back in the centre with velocity `ball_vel`.
pub open spec fn served(m: GameModel, side: Side, screen_w: int, screen_h: int, ball_vel: Pair)
    -> GameModel {
    GameModel {
        ball: BallModel { pos: centre(screen_w, screen_h), vel: ball_vel },
        player_1_score: if side == Side::Left {
            m.player_1_score + 1
        } else {
            m.player_1_score
        },
        player_2_score: if side == Side::Right {
            m.player_2_score + 1
        } else {
            m.player_2_score
        },
        ..m
    }
}

/// The game after one frame, where a point that is scored in it is followed
/// by a serve at `ball_vel`. A paused game stays as it is.
pub open spec fn stepped(
    m: GameModel,
    input: Input,
    dt: int,
    screen_w: int,
    screen_h: int,
    ball_vel: Pair,
) -> GameModel {
    if !m.running {
        m
    } else {
        let c = collided(m, input, dt, screen_h);
        match scorer(c.ball.pos.x, screen_w) {
            Some(side) => served(c, side, screen_w, screen_h, ball_vel),
            None => c,
        }
    }
}

/// Whether a point is scored in the frame.
pub open spec fn scores(m: GameModel, input: Input, dt: int, screen_w: int, screen_h: int) -> bool {
    m.running && scorer(collided(m, input, dt, screen_h).ball.pos.x, screen_w) is Some
}

/// Whether the point that the frame brings, if any, can still be counted in
/// 32 bits.
pub open spec fn countable(m: GameModel, input: Input, dt: int, screen_w: int, screen_h: int) -> bool {
    m.running ==> match scorer(collided(m, input, dt, screen_h).ball.pos.x, screen_w) {
        Some(Side::Left) => m.player_1_score < u32::MAX,
        Some(Side::Right) => m.player_2_score < u32::MAX,
        None => true,
    }
}

/// The game after a key press, where a new colour that is asked for is
/// `fresh`.
pub open spec fn key_applied(m: GameModel, key_code: KeyCode, fresh: Color) -> GameModel {
    match key_code {
        KeyCode::Space => GameModel { running: !m.running, pause_text: resume_prompt(), ..m },
        KeyCode::C => GameModel { color: fresh, ..m },
        KeyCode::Escape => m,
        KeyCode::Other => m,
    }
}

/// What the host loop is to do after a key press.
pub open spec fn key_action(key_code: KeyCode) -> Action {
    if key_code == KeyCode::Escape {
        Action::Quit
    } else {
        Action::Continue
    }
}

/// A serve: `BALL_SPEED` along each axis, in the directions that the two
/// flags choose.
pub open spec fn serve_velocity(x_positive: bool, y_positive: bool) -> Pair {
    oriented(x_positive, y_positive, BALL_SPEED as int, BALL_SPEED as int)
}

impl MainState {
    /// The game before its first frame, with the given serve and colour.
    pub fn starting(screen_w: u32, screen_h: u32, ball_vel: Vector, color: Color) -> (s: MainState)
        ensures
            s@ == initial(screen_w as int, screen_h as int, ball_vel@, color),
    {
        let (screen_w_half, screen_h_half): (u32, u32) = (screen_w / 2, screen_h / 2);
        MainState {
            running: false,
            player_1_pos: Point { x: RACKET_WIDTH_HALF + RACKET_PADDING, y: screen_h_half as i64 },
            player_2_pos: Point {
                x: screen_w as i64 - RACKET_WIDTH_HALF - RACKET_PADDING,
                y: screen_h_half as i64,
            },
            ball: Ball {
                pos: Point { x: screen_w_half as i64, y: screen_h_half as i64 },
                vel: ball_vel,
            },
            player_1_score: 0,
            player_2_score: 0,
            color,
            pause_text: "Press Space to Start Game".to_owned(),
        }
    }

    /// The game before its first frame, with a random serve and a random lit
    /// colour.
    pub fn new(screen_w: u32, screen_h: u32) -> (s: MainState)
        ensures
            exists|x_positive: bool, y_positive: bool, color: Color|
                !color.is_black() && s@ == #[trigger] initial(
                    screen_w as int,
                    screen_h as int,
                    serve_velocity(x_positive, y_positive),
                    color,
                ),
    {
        let mut ball_vel = Vector { x: BALL_SPEED, y: BALL_SPEED };
        randomize_vec(&mut ball_vel, BALL_SPEED, BALL_SPEED);
        let color = randomized_color(None);
        let s = MainState::starting(screen_w, screen_h, ball_vel, color);
        proof {
            let (x_positive, y_positive) = choose|x_positive: bool, y_positive: bool|
                ball_vel@ == #[trigger] oriented(
                    x_positive,
                    y_positive,
                    BALL_SPEED as int,
                    BALL_SPEED as int,
                );
            assert(s@ == initial(
                screen_w as int,
                screen_h as int,
                serve_velocity(x_positive, y_positive),
                color,
            ));
        }
        s
    }

    /// Motion and collisions of one frame, whether or not the game is
    /// running: steers and clamps the rackets, lets the ball fly, and bounces
    /// it off the walls and then off the rackets.
    pub fn advance(&mut self, input: &Input, dt: u64, screen_h: u32)
        ensures
            final(self)@ == collided(old(self)@, *input, dt as int, screen_h as int),
    {
        move_racket(&mut self.player_1_pos, input.player_1_up, travel(-PLAYER_SPEED, dt));
        move_racket(&mut self.player_1_pos, input.player_1_down, travel(PLAYER_SPEED, dt));
        move_racket(&mut self.player_2_pos, input.player_2_up, travel(-PLAYER_SPEED, dt));
        move_racket(&mut self.player_2_pos, input.player_2_down, travel(PLAYER_SPEED, dt));
        clamp(&mut self.player_1_pos.y, RACKET_HEIGHT_HALF, screen_h as i64 - RACKET_HEIGHT_HALF);
        clamp(&mut self.player_2_pos.y, RACKET_HEIGHT_HALF, screen_h as i64 - RACKET_HEIGHT_HALF);
        self.ball.fly(dt);
        self.ball.bounce_off_walls(screen_h);
        self.ball.bounce_off_rackets(&self.player_1_pos, &self.player_2_pos);
    }

    /// Tells who scores with the ball where it is, if anyone.
    pub fn scoring_side(&self, screen_w: u32) -> (side: Option<Side>)
        ensures
            side == scorer(self@.ball.pos.x, screen_w as int),
    {
        if self.ball.pos.x < 0 {
            Some(Side::Right)
        } else if self.ball.pos.x > screen_w as i64 {
            Some(Side::Left)
        } else {
            None
        }
    }

    /// Awards a point to `side` and serves the ball from the centre at
    /// `ball_vel`.
    pub fn award(&mut self, side: Side, screen_w: u32, screen_h: u32, ball_vel: Vector)
        requires
            side == Side::Left ==> old(self).player_1_score < u32::MAX,
            side == Side::Right ==> old(self).player_2_score < u32::MAX,
        ensures
            final(self)@ == served(
                old(self)@,
                side,
                screen_w as int,
                screen_h as int,
                ball_vel@,
            ),
    {
        self.ball.pos.x = (screen_w / 2) as i64;
        self.ball.pos.y = (screen_h / 2) as i64;
        self.ball.vel = ball_vel;
        match side {
            Side::Left => {
                self.player_1_score += 1;
            },
            Side::Right => {
                self.player_2_score += 1;
            },
        }
    }

    /// One frame. A paused game stays as it is. A running game moves, collides
    /// and then looks at the score: a ball past the left or right edge gives
    /// the other side a point and is served from the centre in a random
    /// diagonal direction. The new window title is returned exactly when a
    /// point was scored.
    pub fn update(&mut self, input: &Input, dt: u64, screen_w: u32, screen_h: u32) -> (title:
        Option<String>)
        requires
            countable(old(self)@, *input, dt as int, screen_w as int, screen_h as int),
        ensures
            exists|x_positive: bool, y_positive: bool|
                final(self)@ == stepped(
                    old(self)@,
                    *input,
                    dt as int,
                    screen_w as int,
                    screen_h as int,
                    #[trigger] serve_velocity(x_positive, y_positive),
                ),
            title is Some <==> scores(
                old(self)@,
                *input,
                dt as int,
                screen_w as int,
                screen_h as int,
            ),
            title matches Some(t) ==> t@ == title_text(
                final(self)@.player_1_score,
                final(self)@.player_2_score,
            ),
    {
        if !self.running {
            assert(self@ == stepped(
                old(self)@,
                *input,
                dt as int,
                screen_w as int,
                screen_h as int,
                serve_velocity(true, true),
            ));
            return None;
        }
        self.advance(input, dt, screen_h);
        match self.scoring_side(screen_w) {
            Some(side) => {
                let mut ball_vel = self.ball.vel;
                randomize_vec(&mut ball_vel, BALL_SPEED, BALL_SPEED);
                self.award(side, screen_w, screen_h, ball_vel);
                proof {
                    let (x_positive, y_positive) = choose|x_positive: bool, y_positive: bool|
                        ball_vel@ == #[trigger] oriented(
                            x_positive,
                            y_positive,
                            BALL_SPEED as int,
                            BALL_SPEED as int,
                        );
                    assert(self@ == stepped(
                        old(self)@,
                        *input,
                        dt as int,
                        screen_w as int,
                        screen_h as int,
                        serve_velocity(x_positive, y_positive),
                    ));
                }
                Some(self.window_title())
            },
            None => {
                assert(self@ == stepped(
                    old(self)@,
                    *input,
                    dt as int,
                    screen_w as int,
                    screen_h as int,
                    serve_velocity(true, true),
                ));
                None
            },
        }
    }

    /// Applies a key press, with `fresh` as the new colour should the key ask
    /// for one.
    pub fn apply_key(&mut self, key_code: KeyCode, fresh: Color) -> (action: Action)
        ensures
            final(self)@ == key_applied(old(self)@, key_code, fresh),
            action == key_action(key_code),
    {
        match key_code {
            KeyCode::Space => {
                self.running = !self.running;
                self.pause_text = "Press Space to Resume Game".to_owned();
                Action::Continue
            },
            KeyCode::C => {
                self.color = fresh;
                Action::Continue
            },
            KeyCode::Escape => Action::Quit,
            KeyCode::Other => Action::Continue,
        }
    }

    /// A key press. Space pauses or resumes and changes the message to the
    /// resume wording; C replaces the colour by a random lit colour other than
    /// the current one; Escape asks the host loop to quit; any other key does
    /// nothing.
    pub fn key_down_event(&mut self, key_code: KeyCode) -> (action: Action)
        ensures
            exists|fresh: Color|
                !fresh.is_black() && fresh != old(self)@.color && final(self)@ == #[trigger] key_applied(
                    old(self)@,
                    key_code,
                    fresh,
                ),
            action == key_action(key_code),
    {
        let fresh = match key_code {
            KeyCode::C => randomized_color(Some(&self.color)),
            _ => self.color,
        };
        let action = self.apply_key(key_code, fresh);
        proof {
            let witness = if key_code == KeyCode::C {
                fresh
            } else if old(self)@.color == white() {
                Color { r: true, g: false, b: false }
            } else {
                white()
            };
            assert(self@ == key_applied(old(self)@, key_code, witness));
        }
        action
    }

    /// The score line to draw.
    pub fn score_line(&self) -> (text: String)
        ensures
            text@ == score_text(self@.player_1_score, self@.player_2_score),
    {
        format_score(self.player_1_score, self.player_2_score)
    }

    /// The window title for the current scores.
    pub fn window_title(&self) -> (text: String)
        ensures
            text@ == title_text(self@.player_1_score, self@.player_2_score),
    {
        format_title(self.player_1_score, self.player_2_score)
    }

    /// The message to draw: the pause text while the game is paused, nothing
    /// while it runs.
    pub fn status_line(&self) -> (text: Option<String>)
        ensures
            text is Some <==> !self@.running,
            text matches Some(t) ==> t@ == self@.pause_text,
    {
        if !self.running {
            Some(self.pause_text.clone())
        } else {
            None
        }
    }
}

} // verus!
