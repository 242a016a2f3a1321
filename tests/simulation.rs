use pong::ball::Ball;
use pong::game::Game;
use pong::geometry::{isqrt, renormalize, step_coord, Vec2, MAX_COORD, UNIT};
use pong::paddle::Paddle;
use pong::sprite::Sprite;

fn square(x: i64, y: i64, side: i64) -> Sprite {
    Sprite::new(Vec2::new(x, y), Vec2::new(side, side))
}

#[test]
fn overlap_is_symmetric() {
    let a = square(0, 0, UNIT);
    let b = square(UNIT / 2, UNIT / 4, UNIT);
    let c = square(3 * UNIT, 0, UNIT);
    assert!(a.is_coliding(&b));
    assert!(b.is_coliding(&a));
    assert!(!a.is_coliding(&c));
    assert!(!c.is_coliding(&a));
}

#[test]
fn edge_contact_is_not_a_collision() {
    let a = square(0, 0, UNIT);
    let b = square(UNIT, 0, UNIT);
    assert!(!a.is_coliding(&b));
    assert!(!b.is_coliding(&a));
    let c = square(0, UNIT, UNIT);
    assert!(!a.is_coliding(&c));
}

#[test]
fn slight_overlap_is_a_collision() {
    let a = square(0, 0, UNIT);
    let b = square(UNIT - 1, 0, UNIT);
    assert!(a.is_coliding(&b));
}

#[test]
fn sprite_update_marks_changed() {
    let mut s = square(5, 6, 7);
    s.changed = false;
    s.update();
    assert!(s.changed);
    assert_eq!(s.position, Vec2::new(5, 6));
    assert_eq!(s.size, Vec2::new(7, 7));
}

#[test]
fn paddle_moves_by_intent() {
    let mut p = Paddle::new(Sprite::new(Vec2::new(-UNIT, 0), Vec2::new(100_000, 350_000)), 3_000_000);
    p.add_intent(1);
    p.update(100_000);
    assert_eq!(p.sprite.position, Vec2::new(-UNIT, 300_000));
    p.add_intent(-1);
    assert_eq!(p.wish_dir, 0);
    p.update(100_000);
    assert_eq!(p.sprite.position, Vec2::new(-UNIT, 300_000));
}

#[test]
fn paddle_is_clamped_after_huge_dt() {
    let mut p = Paddle::new(Sprite::new(Vec2::new(UNIT, 0), Vec2::new(100_000, 350_000)), 3_000_000);
    p.add_intent(1);
    p.update(u32::MAX);
    assert_eq!(p.sprite.position.y, 900_000);
    p.add_intent(-2);
    p.update(u32::MAX);
    assert_eq!(p.sprite.position.y, -900_000);
    assert_eq!(p.sprite.position.x, UNIT);
}

#[test]
fn isqrt_values() {
    assert_eq!(isqrt(0), 0);
    assert_eq!(isqrt(15), 3);
    assert_eq!(isqrt(16), 4);
    assert_eq!(isqrt(u64::MAX), 4_294_967_295);
}

#[test]
fn step_coord_rounds_toward_zero_and_stays_in_world() {
    assert_eq!(step_coord(0, -1, 999_999), 0);
    assert_eq!(step_coord(0, -1, 1_000_000), -1);
    assert_eq!(step_coord(10, 2_000_000, 500_000), 1_000_010);
    assert_eq!(step_coord(MAX_COORD, i64::MAX, u32::MAX), MAX_COORD);
    assert_eq!(step_coord(-MAX_COORD, i64::MIN, u32::MAX), -MAX_COORD);
}

#[test]
fn renormalize_keeps_direction_and_sets_speed() {
    assert_eq!(renormalize(Vec2::new(3_000_000, 4_000_000), 2_000_000), Vec2::new(1_200_000, 1_600_000));
    assert_eq!(renormalize(Vec2::new(-3, 4), 5_000), Vec2::new(-3_000, 4_000));
    assert_eq!(renormalize(Vec2::new(1, 1), 2_000_000), Vec2::new(1_414_213, 1_414_213));
    assert_eq!(renormalize(Vec2::new(0, 0), 2_000_000), Vec2::new(0, 0));
}

#[test]
fn ball_speed_is_renormalized_without_collision() {
    let mut b = Ball::new(square(0, 0, 50_000), 2_000_000);
    b.velocity = Vec2::new(3_000_000 / 100, 4_000_000 / 100);
    b.update(0, &[]);
    assert_eq!(b.velocity, Vec2::new(1_200_000, 1_600_000));
    let len2 = (b.velocity.x as i128).pow(2) + (b.velocity.y as i128).pow(2);
    assert_eq!(len2, 4_000_000_000_000);
    assert_eq!(b.sprite.position, Vec2::new(0, 0));
}

#[test]
fn ball_reflects_off_top_wall() {
    let mut b = Ball::new(Sprite::new(Vec2::new(0, 980_000), Vec2::new(50_000, 50_000)), 2_000_000);
    b.velocity = Vec2::new(0, UNIT);
    b.update(16_000, &[]);
    assert!(b.velocity.y < 0);
    assert_eq!(b.velocity, Vec2::new(0, -2_000_000));
    assert_eq!(b.sprite.position, Vec2::new(0, 980_000 - 32_000));
}

#[test]
fn ball_reflects_off_bottom_wall() {
    let mut b = Ball::new(Sprite::new(Vec2::new(0, -990_000), Vec2::new(50_000, 50_000)), 2_000_000);
    b.velocity = Vec2::new(0, -UNIT);
    b.update(0, &[]);
    assert_eq!(b.velocity, Vec2::new(0, 2_000_000));
}

#[test]
fn paddle_kick_adds_intent_times_ball_speed() {
    let mut p = Paddle::new(square(0, 0, 350_000), 3_000_000);
    p.add_intent(1);
    let mut b = Ball::new(square(0, 0, 50_000), 2_000_000);
    b.velocity = Vec2::new(UNIT, 0);
    b.bounce_off(10_000, &p);
    assert_eq!(b.velocity, Vec2::new(-UNIT, 2_000_000));
    assert_eq!(b.sprite.position, Vec2::new(-10_000, 0));
}

#[test]
fn no_kick_without_overlap() {
    let p = Paddle::new(square(UNIT, 0, 350_000), 3_000_000);
    let mut b = Ball::new(square(0, 0, 50_000), 2_000_000);
    b.velocity = Vec2::new(UNIT, 0);
    b.bounce_off(10_000, &p);
    assert_eq!(b.velocity, Vec2::new(UNIT, 0));
    assert_eq!(b.sprite.position, Vec2::new(0, 0));
}

#[test]
fn ball_update_against_moving_paddle() {
    let mut p = Paddle::new(square(0, 0, 350_000), 3_000_000);
    p.add_intent(1);
    let mut b = Ball::new(square(0, 0, 50_000), 2_000_000);
    b.velocity = Vec2::new(2_000_000, 0);
    b.update(0, &[&p]);
    // (-2, 2) rescaled to length 2
    assert_eq!(b.velocity, Vec2::new(-1_414_213, 1_414_213));
}

#[test]
fn scoring_on_the_left_line() {
    let mut g = Game::new();
    g.ball.sprite.position = Vec2::new(-960_000, 123);
    g.ball.velocity = Vec2::new(-1_234_567, 89);
    assert!(g.check_score());
    assert_eq!(g.player2_score, 1);
    assert_eq!(g.player1_score, 0);
    assert_eq!(g.ball.velocity, Vec2::new(0, 0));
    assert_eq!(g.ball.sprite.position, Vec2::new(0, 0));
}

#[test]
fn scoring_on_the_right_line() {
    let mut g = Game::new();
    g.ball.sprite.position = Vec2::new(950_000, 0);
    g.ball.velocity = Vec2::new(1, 1);
    assert!(g.check_score());
    assert_eq!(g.player1_score, 1);
    assert_eq!(g.player2_score, 0);
    assert_eq!(g.ball.velocity, Vec2::new(0, 0));
}

#[test]
fn no_point_inside_the_court() {
    let mut g = Game::new();
    g.ball.sprite.position = Vec2::new(949_999, 5);
    g.ball.velocity = Vec2::new(1, 1);
    assert!(!g.check_score());
    assert_eq!(g.player1_score, 0);
    assert_eq!(g.player2_score, 0);
    assert_eq!(g.ball.sprite.position, Vec2::new(949_999, 5));
}

#[test]
fn serve_alternates_sides() {
    let mut g = Game::new();
    assert_eq!(g.server, 1);
    g.ball.sprite.position = Vec2::new(7, 8);
    g.serve();
    assert_eq!(g.server, -1);
    assert_eq!(g.ball.velocity, Vec2::new(-1_000_000, -350_000));
    assert_eq!(g.ball.sprite.position, Vec2::new(0, 0));
    g.serve();
    assert_eq!(g.server, 1);
    assert_eq!(g.ball.velocity, Vec2::new(1_000_000, 350_000));
}

#[test]
fn new_game_layout() {
    let g = Game::new();
    assert_eq!(g.paddle1.sprite.position, Vec2::new(-UNIT, 0));
    assert_eq!(g.paddle2.sprite.position, Vec2::new(UNIT, 0));
    assert_eq!(g.paddle1.sprite.size, Vec2::new(100_000, 350_000));
    assert_eq!(g.ball.sprite.size, Vec2::new(50_000, 50_000));
    assert_eq!(g.ball.speed, 2_000_000);
    assert_eq!(g.paddle2.speed, 3_000_000);
}

#[test]
fn one_frame_after_serve() {
    let mut g = Game::new();
    g.serve();
    assert!(!g.step(16_000));
    assert_eq!(g.ball.velocity, Vec2::new(-1_887_716, -660_700));
    assert_eq!(g.ball.sprite.position, Vec2::new(-30_203, -10_571));
    assert_eq!(g.paddle1.sprite.position, Vec2::new(-UNIT, 0));
}

#[test]
fn frame_that_crosses_the_line_scores() {
    let mut g = Game::new();
    g.serve();
    g.ball.sprite.position = Vec2::new(-940_000, 500_000);
    assert!(g.step(16_000));
    assert_eq!(g.player2_score, 1);
    assert_eq!(g.ball.velocity, Vec2::new(0, 0));
    assert_eq!(g.ball.sprite.position, Vec2::new(0, 0));
}
