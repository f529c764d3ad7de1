use flappy::animation::{Animation, Frame};
use flappy::collision::Aabb;
use flappy::player::Player;
use flappy::scenery::{Background, ObstacleGroup, MAX_GAP_OFFSET, MIN_GAP_OFFSET};
use flappy::units::{
    DEATH_VELOCITY, DEGREE, GRAVITY, JUMP_VELOCITY, SPEED_UNIT, TERMINAL_VELOCITY, UNIT,
};
use flappy::world::{GameState, World};

const GAPS: [i64; 4] = [60, 90, 120, 150];

fn flap(repeat: bool) -> Animation {
    Animation {
        elapsed: 0,
        repeat,
        frame: 0,
        frames: vec![
            Frame { index: 3, duration: 200_000 },
            Frame { index: 2, duration: 200_000 },
            Frame { index: 1, duration: 200_000 },
        ],
    }
}

fn assert_same_layout(a: &World, b: &World) {
    assert_eq!(a.state, b.state);
    assert_eq!(a.gravity, b.gravity);
    assert_eq!(a.player.x, b.player.x);
    assert_eq!(a.player.y, b.player.y);
    assert_eq!(a.player.velocity, b.player.velocity);
    assert_eq!(a.player.rotation, b.player.rotation);
    assert_eq!(a.player.collider, b.player.collider);
    assert_eq!(a.player.animation.frame, b.player.animation.frame);
    assert_eq!(a.player.animation.elapsed, b.player.animation.elapsed);
    assert_eq!(a.player.animation.repeat, b.player.animation.repeat);
    assert_eq!(a.player.animation.frames, b.player.animation.frames);
    assert_eq!(a.background, b.background);
    assert_eq!(a.obstacles.len(), b.obstacles.len());
    for i in 0..a.obstacles.len() {
        assert_eq!(a.obstacles[i].x, b.obstacles[i].x);
    }
}

#[test]
fn gravity_adds_to_velocity_then_moves() {
    let mut p = Player::new();
    p.apply_gravity(GRAVITY, 100_000);
    assert_eq!(p.velocity, -98_200_000);
    assert_eq!(p.y, -98_200_000 * 100_000);
}

#[test]
fn gravity_stops_at_terminal_velocity() {
    let mut p = Player::new();
    p.apply_gravity(GRAVITY, 1_000_000);
    assert_eq!(p.velocity, TERMINAL_VELOCITY);
    assert_eq!(p.y, -400 * UNIT);
    p.velocity = -500 * SPEED_UNIT;
    p.y = 0;
    p.apply_gravity(GRAVITY, 0);
    assert_eq!(p.velocity, TERMINAL_VELOCITY);
    assert_eq!(p.y, 0);
}

#[test]
fn falling_height_saturates() {
    let mut p = Player::new();
    p.y = i64::MIN + 5;
    p.velocity = TERMINAL_VELOCITY;
    p.apply_gravity(GRAVITY, 10);
    assert_eq!(p.y, i64::MIN);
}

#[test]
fn press_in_menu_starts_play_with_exact_jump() {
    let mut w = World::create_world(GRAVITY, &GAPS);
    assert_eq!(w.state, GameState::MainMenu);
    w.tick(true, 0, &GAPS);
    assert_eq!(w.state, GameState::Playing);
    assert_eq!(w.player.velocity, 200 * SPEED_UNIT);
    assert_eq!(w.player.y, 0);
    assert_eq!(w.player.animation.frame, 0);
}

#[test]
fn menu_without_press_stays_still() {
    let mut w = World::create_world(GRAVITY, &GAPS);
    w.tick(false, 16_000, &GAPS);
    assert_eq!(w.state, GameState::MainMenu);
    assert_eq!(w.player.y, 0);
    assert_eq!(w.player.velocity, 0);
    assert_eq!(w.background.x, 0);
    assert_eq!(w.obstacles[0].x, 144 * UNIT);
}

#[test]
fn playing_press_jumps_and_restarts_flap() {
    let mut w = World::create_world(GRAVITY, &GAPS);
    w.state = GameState::Playing;
    w.player.velocity = -300 * SPEED_UNIT;
    w.tick(true, 0, &GAPS);
    assert_eq!(w.state, GameState::Playing);
    assert_eq!(w.player.velocity, JUMP_VELOCITY);
    assert_eq!(w.player.rotation, 45 * DEGREE);
}

#[test]
fn non_repeating_animation_clamps_on_last_frame() {
    let mut a = flap(false);
    a.update_animation(650_000);
    assert_eq!(a.frame, 2);
    assert_eq!(a.current_index(), 1);
    assert_eq!(a.elapsed, 200_000);
    a.update_animation(300_000);
    assert_eq!(a.frame, 2);
    assert_eq!(a.current_index(), 1);
    assert_eq!(a.elapsed, 200_000);
}

#[test]
fn animation_advances_within_and_across_frames() {
    let mut a = flap(false);
    a.update_animation(150_000);
    assert_eq!((a.frame, a.elapsed), (0, 150_000));
    a.update_animation(100_000);
    assert_eq!((a.frame, a.elapsed), (1, 50_000));
    assert_eq!(a.current_index(), 2);
}

#[test]
fn repeating_animation_wraps_to_first_frame() {
    let mut a = flap(true);
    a.update_animation(650_000);
    assert_eq!((a.frame, a.elapsed), (0, 50_000));
    assert_eq!(a.current_index(), 3);
}

#[test]
fn jump_trigger_restarts_at_first_frame() {
    let mut a = flap(false);
    a.update_animation(650_000);
    a.trigger_jump_animation();
    assert_eq!(a.frame, 0);
    assert_eq!(a.elapsed, 200_000);
    a.update_animation(0);
    assert_eq!((a.frame, a.elapsed), (1, 0));
}

#[test]
fn background_wraps_by_one_tile_width() {
    let mut b = Background { x: -143_001_000_000_000 };
    b.scroll_backgrounds(0);
    assert_eq!(b.x, -1_000_000_000);
    let mut c = Background { x: -143 * UNIT + UNIT / 2 };
    c.scroll_backgrounds(10_000);
    assert_eq!(c.x, -UNIT / 2);
    assert_eq!(c.tile_positions(), (-UNIT / 2, 143 * UNIT - UNIT / 2));
}

#[test]
fn background_scrolls_left() {
    let mut b = Background::new();
    b.scroll_backgrounds(500_000);
    assert_eq!(b.x, -50 * UNIT);
}

#[test]
fn pipe_pair_wraps_by_whole_ring_with_new_gap() {
    let mut g = ObstacleGroup::new(-288 * UNIT - UNIT / 2, 100);
    g.scroll_pipes(0, 77);
    assert_eq!(g.x, 351 * UNIT + UNIT / 2);
    assert_eq!(g.y, 77 * UNIT);
    let mut h = ObstacleGroup::new(0, 100);
    h.scroll_pipes(10_000, 77);
    assert_eq!(h.x, -UNIT);
    assert_eq!(h.y, 100 * UNIT);
}

#[test]
fn out_of_bounds_kills_with_death_pop() {
    let mut w = World::create_world(GRAVITY, &GAPS);
    w.state = GameState::Playing;
    w.player.y = 130 * UNIT;
    w.crash_and_die();
    assert_eq!(w.state, GameState::GameOver);
    assert_eq!(w.player.velocity, DEATH_VELOCITY);
    assert_eq!(w.player.velocity, 400 * SPEED_UNIT);
}

#[test]
fn bounds_are_inclusive_at_the_edge() {
    let mut w = World::create_world(GRAVITY, &GAPS);
    w.state = GameState::Playing;
    w.player.y = -128 * UNIT;
    w.crash_and_die();
    assert_eq!(w.state, GameState::Playing);
    assert_eq!(w.player.velocity, 0);
}

#[test]
fn touching_a_pipe_kills() {
    let mut w = World::create_world(GRAVITY, &GAPS);
    w.state = GameState::Playing;
    w.obstacles[1] = ObstacleGroup::new(0, 100);
    w.crash_and_die();
    assert_eq!(w.state, GameState::Playing);
    w.player.y = 20 * UNIT;
    w.crash_and_die();
    assert_eq!(w.state, GameState::GameOver);
    assert_eq!(w.player.velocity, DEATH_VELOCITY);
}

#[test]
fn bottom_pipe_kills() {
    let mut w = World::create_world(GRAVITY, &GAPS);
    w.state = GameState::Playing;
    w.obstacles[2] = ObstacleGroup::new(10 * UNIT, 100);
    w.player.y = -30 * UNIT;
    w.crash_and_die();
    assert_eq!(w.state, GameState::GameOver);
}

#[test]
fn x_separated_boxes_never_intersect() {
    let a = Aabb::new(0, 0, 2, 100);
    let b = Aabb::new(10, 0, 2, 100);
    assert!(!a.intersects(&b));
    assert!(!b.intersects(&a));
    let c = Aabb::new(4, 50, 2, 1);
    assert!(a.intersects(&c));
    let d = Aabb::new(0, 0, 6, 4).offset_aabb(0, 130);
    assert_eq!(d, Aabb::new(0, 130, 6, 4));
}

#[test]
fn full_cycle_rebuilds_the_same_world() {
    let start = World::create_world(GRAVITY, &GAPS);
    let mut w = World::create_world(GRAVITY, &GAPS);
    w.tick(true, 16_000, &GAPS);
    assert_eq!(w.state, GameState::Playing);
    w.player.y = 200 * UNIT;
    w.tick(false, 16_000, &GAPS);
    assert_eq!(w.state, GameState::GameOver);
    assert_eq!(w.player.velocity, DEATH_VELOCITY);
    w.tick(false, 16_000, &GAPS);
    assert_eq!(w.state, GameState::GameOver);
    let other = [48, 49, 153, 154];
    w.tick(true, 16_000, &other);
    assert_eq!(w.state, GameState::MainMenu);
    assert_same_layout(&start, &w);
    for i in 0..4 {
        assert_eq!(w.obstacles[i].y, other[i] * UNIT);
    }
}

#[test]
fn new_world_layout() {
    let w = World::create_world(GRAVITY, &GAPS);
    assert_eq!(w.player.animation.frame, 2);
    assert!(!w.player.animation.repeat);
    assert_eq!(w.player.animation.current_index(), 1);
    assert_eq!(w.background.tile_positions(), (0, 143 * UNIT));
    for i in 0..4 {
        assert_eq!(w.obstacles[i].x, (i as i64 * 160 + 144) * UNIT);
        assert_eq!(w.obstacles[i].y, GAPS[i] * UNIT);
    }
}

#[test]
fn random_worlds_draw_gaps_in_range() {
    for _ in 0..50 {
        let mut w = World::create_world_random(GRAVITY);
        for g in &w.obstacles {
            assert_eq!(g.y % UNIT, 0);
            assert!(g.y >= MIN_GAP_OFFSET * UNIT && g.y <= MAX_GAP_OFFSET * UNIT);
        }
        w.tick_random(true, 0);
        w.obstacles[0].x = -288 * UNIT - 1;
        w.tick_random(false, 0);
        let g = w.obstacles[0];
        assert_eq!(g.x, 352 * UNIT - 1);
        assert!(g.y >= MIN_GAP_OFFSET * UNIT && g.y <= MAX_GAP_OFFSET * UNIT);
    }
}

#[test]
fn tilt_follows_velocity() {
    let mut p = Player::new();
    p.velocity = TERMINAL_VELOCITY;
    p.apply_rotation();
    assert_eq!(p.rotation, -15 * DEGREE);
    p.rotation = 0;
    p.velocity = 0;
    p.apply_rotation();
    assert_eq!(p.rotation, 15 * DEGREE);
    p.velocity = 10 * JUMP_VELOCITY;
    p.apply_rotation();
    assert_eq!(p.rotation, 52 * DEGREE + DEGREE / 2);
}

#[test]
fn game_over_keeps_falling() {
    let mut w = World::create_world(GRAVITY, &GAPS);
    w.state = GameState::GameOver;
    w.player.velocity = DEATH_VELOCITY;
    w.tick(false, 100_000, &GAPS);
    assert_eq!(w.state, GameState::GameOver);
    assert_eq!(w.player.velocity, DEATH_VELOCITY - 98_200_000);
    assert_eq!(w.background.x, 0);
}

#[test]
fn playing_scrolls_scenery() {
    let mut w = World::create_world(GRAVITY, &GAPS);
    w.state = GameState::Playing;
    w.player.velocity = JUMP_VELOCITY;
    w.tick(false, 10_000, &GAPS);
    assert_eq!(w.state, GameState::Playing);
    assert_eq!(w.background.x, -UNIT);
    assert_eq!(w.obstacles[0].x, 143 * UNIT);
    assert_eq!(w.player.velocity, JUMP_VELOCITY - 9_820_000);
}
