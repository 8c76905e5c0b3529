use rusty_pong::color::Color;
use rusty_pong::geometry::{Point, Vector};
use rusty_pong::physics::Ball;
use rusty_pong::state::{Action, Input, KeyCode, MainState, Side};

const W: u32 = 800_000;
const H: u32 = 600_000;
const RED: Color = Color { r: true, g: false, b: false };
const NO_KEYS: Input =
    Input { player_1_up: false, player_1_down: false, player_2_up: false, player_2_down: false };

fn running_game() -> MainState {
    let mut s = MainState::starting(W, H, Vector { x: 300_000, y: 300_000 }, RED);
    s.running = true;
    s
}

fn ball(x: i64, y: i64, vx: i64, vy: i64) -> Ball {
    Ball { pos: Point { x, y }, vel: Vector { x: vx, y: vy } }
}

#[test]
fn starting_state_is_paused_and_centred() {
    let s = MainState::starting(W, H, Vector { x: -300_000, y: 300_000 }, RED);
    assert!(!s.running);
    assert_eq!(s.player_1_pos, Point { x: 50_000, y: 300_000 });
    assert_eq!(s.player_2_pos, Point { x: 750_000, y: 300_000 });
    assert_eq!(s.ball, ball(400_000, 300_000, -300_000, 300_000));
    assert_eq!(s.player_1_score, 0);
    assert_eq!(s.player_2_score, 0);
    assert_eq!(s.color, RED);
    assert_eq!(s.pause_text, "Press Space to Start Game");
}

#[test]
fn starting_state_on_odd_and_tiny_playfields() {
    let odd = MainState::starting(801, 601, Vector { x: 1, y: 2 }, RED);
    assert_eq!(odd.ball.pos, Point { x: 400, y: 300 });
    assert_eq!(odd.player_1_pos, Point { x: 50_000, y: 300 });
    assert_eq!(odd.player_2_pos, Point { x: 801 - 50_000, y: 300 });
    let empty = MainState::starting(0, 0, Vector { x: 1, y: 2 }, RED);
    assert_eq!(empty.ball.pos, Point { x: 0, y: 0 });
    assert_eq!(empty.player_2_pos, Point { x: -50_000, y: 0 });
    let huge = MainState::starting(u32::MAX, u32::MAX, Vector { x: 1, y: 2 }, RED);
    assert_eq!(huge.ball.pos, Point { x: 2_147_483_647, y: 2_147_483_647 });
    assert_eq!(huge.player_2_pos.x, 4_294_967_295 - 50_000);
}

#[test]
fn new_game_is_paused_with_a_diagonal_serve() {
    let mut games = 0;
    while games < 200 {
        let s = MainState::new(W, H);
        assert!(!s.running);
        assert_eq!(s.player_1_pos, Point { x: 50_000, y: 300_000 });
        assert_eq!(s.player_2_pos, Point { x: 750_000, y: 300_000 });
        assert_eq!(s.ball.pos, Point { x: 400_000, y: 300_000 });
        assert_eq!(s.ball.vel.x.abs(), 300_000);
        assert_eq!(s.ball.vel.y.abs(), 300_000);
        assert_eq!((s.player_1_score, s.player_2_score), (0, 0));
        assert_ne!(s.color, Color { r: false, g: false, b: false });
        assert_eq!(s.pause_text, "Press Space to Start Game");
        games += 1;
    }
}

#[test]
fn new_games_serve_in_all_four_directions() {
    let mut seen = Vec::new();
    let mut games = 0;
    while games < 2_000 {
        let v = MainState::new(W, H).ball.vel;
        if !seen.contains(&v) {
            seen.push(v);
        }
        games += 1;
    }
    assert_eq!(seen.len(), 4);
}

#[test]
fn paused_game_does_not_move() {
    let mut s = MainState::starting(W, H, Vector { x: 300_000, y: 300_000 }, RED);
    s.ball.pos = Point { x: -5_000, y: 1_000 };
    s.player_1_pos.y = -700;
    let before = s.clone();
    let all_keys =
        Input { player_1_up: true, player_1_down: true, player_2_up: true, player_2_down: false };
    let title = s.update(&all_keys, 1_000_000, W, H);
    assert_eq!(title, None);
    assert_eq!(s, before);
}

#[test]
fn scenario_racket_near_the_top_is_clamped() {
    let mut s = running_game();
    s.player_1_pos = Point { x: 60_000, y: 50_000 };
    let up = Input { player_1_up: true, ..NO_KEYS };
    let title = s.update(&up, 100_000, W, H);
    assert_eq!(title, None);
    assert_eq!(s.player_1_pos, Point { x: 60_000, y: 50_000 });
    assert_eq!(s.player_2_pos, Point { x: 750_000, y: 300_000 });
}

#[test]
fn rackets_move_by_speed_times_time() {
    let mut s = running_game();
    let keys = Input { player_1_up: true, player_2_down: true, ..NO_KEYS };
    s.update(&keys, 100_000, W, H);
    assert_eq!(s.player_1_pos, Point { x: 50_000, y: 240_000 });
    assert_eq!(s.player_2_pos, Point { x: 750_000, y: 360_000 });
    s.update(&keys, 16_667, W, H);
    assert_eq!(s.player_1_pos, Point { x: 50_000, y: 230_000 });
    assert_eq!(s.player_2_pos, Point { x: 750_000, y: 370_000 });
}

#[test]
fn up_and_down_together_cancel() {
    let mut s = running_game();
    let both = Input { player_1_up: true, player_1_down: true, ..NO_KEYS };
    s.update(&both, 100_000, W, H);
    assert_eq!(s.player_1_pos, Point { x: 50_000, y: 300_000 });
}

#[test]
fn racket_at_the_bottom_is_clamped() {
    let mut s = running_game();
    let down = Input { player_2_down: true, ..NO_KEYS };
    s.update(&down, 1_000_000, W, H);
    assert_eq!(s.player_2_pos, Point { x: 750_000, y: 550_000 });
}

#[test]
fn rackets_stay_inside_over_many_frames() {
    let mut s = running_game();
    s.player_1_pos.y = i64::MIN;
    s.player_2_pos.y = i64::MAX;
    let mut frame: u64 = 0;
    while frame < 500 {
        let keys = Input {
            player_1_up: frame % 3 != 0,
            player_1_down: frame % 5 == 0,
            player_2_up: frame % 7 < 2,
            player_2_down: frame % 2 == 0,
        };
        s.update(&keys, (frame % 11) * 9_973, W, H);
        assert!(50_000 <= s.player_1_pos.y && s.player_1_pos.y <= 550_000);
        assert!(50_000 <= s.player_2_pos.y && s.player_2_pos.y <= 550_000);
        frame += 1;
    }
}

#[test]
fn racket_on_a_playfield_lower_than_itself() {
    let mut s = running_game();
    s.update(&NO_KEYS, 0, W, 60_000);
    // The lower bound is tested first, then the upper one.
    assert_eq!(s.player_1_pos.y, 10_000);
    let mut low = running_game();
    low.player_1_pos.y = 20_000;
    low.update(&NO_KEYS, 0, W, 60_000);
    assert_eq!(low.player_1_pos.y, 50_000);
}

#[test]
fn advance_moves_ball_and_rackets_even_when_paused() {
    let mut s = MainState::starting(W, H, Vector { x: 300_000, y: -300_000 }, RED);
    let keys = Input { player_1_down: true, ..NO_KEYS };
    s.advance(&keys, 100_000, H);
    assert_eq!(s.ball, ball(430_000, 270_000, 300_000, -300_000));
    assert_eq!(s.player_1_pos, Point { x: 50_000, y: 360_000 });
    assert!(!s.running);
}

#[test]
fn frame_bounces_off_the_top_wall() {
    let mut s = running_game();
    s.ball = ball(400_000, 20_000, 300_000, -300_000);
    let title = s.update(&NO_KEYS, 100_000, W, H);
    assert_eq!(title, None);
    assert_eq!(s.ball, ball(430_000, 15_000, 300_000, 300_000));
}

#[test]
fn frame_bounces_off_the_bottom_wall() {
    let mut s = running_game();
    s.ball = ball(400_000, 580_000, -300_000, 300_000);
    let title = s.update(&NO_KEYS, 100_000, W, H);
    assert_eq!(title, None);
    assert_eq!(s.ball, ball(370_000, 585_000, -300_000, -300_000));
}

#[test]
fn frame_bounces_off_the_moved_racket() {
    let mut s = running_game();
    // The racket moves up by 60 px and only then meets the ball.
    s.ball = ball(70_000, 180_000, -200_000, 300_000);
    let up = Input { player_1_up: true, ..NO_KEYS };
    s.update(&up, 100_000, W, H);
    assert_eq!(s.player_1_pos, Point { x: 50_000, y: 240_000 });
    assert_eq!(s.ball, ball(50_000, 210_000, 220_000, 300_000));
    let mut still = running_game();
    still.ball = ball(70_000, 180_000, -200_000, 300_000);
    still.update(&NO_KEYS, 100_000, W, H);
    assert_eq!(still.ball, ball(50_000, 210_000, -200_000, 300_000));
}

#[test]
fn ball_stays_inside_the_racket_and_is_amplified_again() {
    let mut s = running_game();
    s.ball = ball(70_000, 300_000, -200_000, 0);
    s.update(&NO_KEYS, 0, W, H);
    assert_eq!(s.ball, ball(70_000, 300_000, 220_000, 0));
    s.update(&NO_KEYS, 0, W, H);
    assert_eq!(s.ball, ball(70_000, 300_000, 242_000, 0));
}

#[test]
fn scoring_side_is_opposite_to_the_edge_crossed() {
    let mut s = running_game();
    s.ball.pos.x = -1;
    assert_eq!(s.scoring_side(W), Some(Side::Right));
    s.ball.pos.x = 0;
    assert_eq!(s.scoring_side(W), None);
    s.ball.pos.x = 800_000;
    assert_eq!(s.scoring_side(W), None);
    s.ball.pos.x = 800_001;
    assert_eq!(s.scoring_side(W), Some(Side::Left));
    s.ball.pos.x = 1;
    assert_eq!(s.scoring_side(0), Some(Side::Left));
    s.ball.pos.x = -1;
    assert_eq!(s.scoring_side(0), Some(Side::Right));
}

#[test]
fn scenario_ball_past_the_left_edge() {
    let mut s = running_game();
    s.ball = ball(-5_000, 300_000, -300_000, 50_000);
    assert_eq!(s.scoring_side(W), Some(Side::Right));
    let title = s.update(&NO_KEYS, 0, W, H);
    assert_eq!(s.player_2_score, 1);
    assert_eq!(s.player_1_score, 0);
    assert_eq!(s.ball.pos, Point { x: 400_000, y: 300_000 });
    assert_eq!(s.ball.vel.x.abs(), 300_000);
    assert_eq!(s.ball.vel.y.abs(), 300_000);
    assert_eq!(title, Some(String::from(" Rusty Pong | 0 - 1 ")));
}

#[test]
fn ball_past_the_right_edge_scores_for_the_left() {
    let mut s = running_game();
    s.player_1_score = 9;
    s.player_2_score = 4;
    s.ball = ball(790_000, 300_000, 660_000, 300_000);
    let title = s.update(&NO_KEYS, 100_000, W, H);
    assert_eq!(s.player_1_score, 10);
    assert_eq!(s.player_2_score, 4);
    assert_eq!(s.ball.pos, Point { x: 400_000, y: 300_000 });
    assert_eq!(s.ball.vel.x.abs(), 300_000);
    assert_eq!(s.ball.vel.y.abs(), 300_000);
    assert_eq!(title, Some(String::from(" Rusty Pong | 10 - 4 ")));
}

#[test]
fn ball_on_the_edge_does_not_score() {
    let mut s = running_game();
    s.ball = ball(0, 300_000, -300_000, 300_000);
    assert_eq!(s.update(&NO_KEYS, 0, W, H), None);
    assert_eq!((s.player_1_score, s.player_2_score), (0, 0));
    s.ball = ball(800_000, 300_000, 300_000, 300_000);
    assert_eq!(s.update(&NO_KEYS, 0, W, H), None);
    assert_eq!((s.player_1_score, s.player_2_score), (0, 0));
    assert_eq!(s.ball, ball(800_000, 300_000, 300_000, 300_000));
}

#[test]
fn award_counts_serves_and_keeps_the_rest() {
    let mut s = running_game();
    s.ball = ball(-5_000, 20_000, -990_000, 50_000);
    let before = s.clone();
    s.award(Side::Right, W, H, Vector { x: 300_000, y: -300_000 });
    assert_eq!(s.ball, ball(400_000, 300_000, 300_000, -300_000));
    assert_eq!((s.player_1_score, s.player_2_score), (0, 1));
    s.award(Side::Left, 801, 601, Vector { x: -7, y: 8 });
    assert_eq!(s.ball, ball(400, 300, -7, 8));
    assert_eq!((s.player_1_score, s.player_2_score), (1, 1));
    assert_eq!(s.running, before.running);
    assert_eq!(s.player_1_pos, before.player_1_pos);
    assert_eq!(s.player_2_pos, before.player_2_pos);
    assert_eq!(s.color, before.color);
    assert_eq!(s.pause_text, before.pause_text);
}

#[test]
fn award_reaches_the_highest_score() {
    let mut s = running_game();
    s.player_1_score = u32::MAX - 1;
    s.award(Side::Left, W, H, Vector { x: 300_000, y: 300_000 });
    assert_eq!(s.player_1_score, u32::MAX);
    assert_eq!(s.window_title(), " Rusty Pong | 4294967295 - 0 ");
}

#[test]
fn speed_resets_after_a_point() {
    let mut s = running_game();
    s.ball = ball(70_000, 300_000, -200_000, 0);
    let mut frame = 0;
    while frame < 20 {
        s.update(&NO_KEYS, 0, W, H);
        frame += 1;
    }
    assert!(s.ball.vel.x > 1_000_000);
    // Twenty racket hits later the ball leaves on the right.
    let title = s.update(&NO_KEYS, 1_000_000, W, H);
    assert!(title.is_some());
    assert_eq!(s.ball.vel.x.abs(), 300_000);
    assert_eq!(s.ball.vel.y.abs(), 300_000);
    assert_eq!((s.player_1_score, s.player_2_score), (1, 0));
}

#[test]
fn serves_after_points_go_in_all_four_directions() {
    let mut seen = Vec::new();
    let mut points = 0;
    while points < 2_000 {
        let mut s = running_game();
        s.ball = ball(-5_000, 300_000, -300_000, 300_000);
        s.update(&NO_KEYS, 0, W, H);
        if !seen.contains(&s.ball.vel) {
            seen.push(s.ball.vel);
        }
        points += 1;
    }
    assert_eq!(seen.len(), 4);
}

#[test]
fn wall_hit_and_point_in_one_frame() {
    let mut s = running_game();
    s.ball = ball(10_000, 20_000, -300_000, -300_000);
    let title = s.update(&NO_KEYS, 100_000, W, H);
    assert_eq!(title, Some(String::from(" Rusty Pong | 0 - 1 ")));
    assert_eq!(s.ball.pos, Point { x: 400_000, y: 300_000 });
}

#[test]
fn space_toggles_and_changes_the_message() {
    let mut s = MainState::starting(W, H, Vector { x: 300_000, y: 300_000 }, RED);
    let before = s.clone();
    assert_eq!(s.key_down_event(KeyCode::Space), Action::Continue);
    assert!(s.running);
    assert_eq!(s.pause_text, "Press Space to Resume Game");
    assert_eq!(s.key_down_event(KeyCode::Space), Action::Continue);
    assert!(!s.running);
    assert_eq!(s.pause_text, "Press Space to Resume Game");
    assert_eq!(s.key_down_event(KeyCode::Space), Action::Continue);
    assert!(s.running);
    assert_eq!(s.pause_text, "Press Space to Resume Game");
    assert_eq!(s.ball, before.ball);
    assert_eq!(s.player_1_pos, before.player_1_pos);
    assert_eq!(s.player_2_pos, before.player_2_pos);
    assert_eq!(s.color, before.color);
    assert_eq!((s.player_1_score, s.player_2_score), (0, 0));
}

#[test]
fn c_changes_the_colour_and_nothing_else() {
    let mut s = running_game();
    let mut presses = 0;
    while presses < 2_000 {
        let before = s.clone();
        assert_eq!(s.key_down_event(KeyCode::C), Action::Continue);
        assert_ne!(s.color, before.color);
        assert_ne!(s.color, Color { r: false, g: false, b: false });
        let mut expected = before;
        expected.color = s.color;
        assert_eq!(s, expected);
        presses += 1;
    }
}

#[test]
fn escape_quits_and_changes_nothing() {
    let mut s = running_game();
    let before = s.clone();
    assert_eq!(s.key_down_event(KeyCode::Escape), Action::Quit);
    assert_eq!(s, before);
    let mut paused = MainState::starting(W, H, Vector { x: 300_000, y: 300_000 }, RED);
    assert_eq!(paused.key_down_event(KeyCode::Escape), Action::Quit);
    assert!(!paused.running);
}

#[test]
fn other_keys_do_nothing() {
    let mut s = running_game();
    let before = s.clone();
    assert_eq!(s.key_down_event(KeyCode::Other), Action::Continue);
    assert_eq!(s, before);
}

#[test]
fn apply_key_takes_the_colour_it_is_given() {
    let blue = Color { r: false, g: false, b: true };
    let mut s = running_game();
    assert_eq!(s.apply_key(KeyCode::C, blue), Action::Continue);
    assert_eq!(s.color, blue);
    assert_eq!(s.apply_key(KeyCode::Space, RED), Action::Continue);
    assert_eq!(s.color, blue);
    assert!(!s.running);
    assert_eq!(s.pause_text, "Press Space to Resume Game");
    assert_eq!(s.apply_key(KeyCode::Other, RED), Action::Continue);
    assert_eq!(s.apply_key(KeyCode::Escape, RED), Action::Quit);
    assert_eq!(s.color, blue);
}

#[test]
fn status_line_shows_only_while_paused() {
    let mut s = MainState::starting(W, H, Vector { x: 300_000, y: 300_000 }, RED);
    assert_eq!(s.status_line(), Some(String::from("Press Space to Start Game")));
    s.key_down_event(KeyCode::Space);
    assert_eq!(s.status_line(), None);
    s.key_down_event(KeyCode::Space);
    assert_eq!(s.status_line(), Some(String::from("Press Space to Resume Game")));
}

#[test]
fn score_line_and_title_follow_the_scores() {
    let mut s = running_game();
    assert_eq!(s.score_line(), " 0     -     0 ");
    assert_eq!(s.window_title(), " Rusty Pong | 0 - 0 ");
    s.player_1_score = 7;
    s.player_2_score = 11;
    assert_eq!(s.score_line(), " 7     -     11 ");
    assert_eq!(s.window_title(), " Rusty Pong | 7 - 11 ");
}
