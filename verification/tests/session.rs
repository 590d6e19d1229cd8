use flappy::input::InputSnapshot;
use flappy::session::{GameMode, GameWorld};

const SHEET_TILES: usize = 9;

fn released() -> InputSnapshot {
    InputSnapshot { up: false, left: false, right: false }
}

#[test]
fn fresh_world_sits_in_the_menu() {
    let w = GameWorld::new();
    assert_eq!(w.mode, GameMode::Menu);
    assert_eq!(w.score, 0);
    assert_eq!(w.high_score, 0);
    assert!(w.player.is_none());
    assert!(w.animator.is_none());
    assert!(!w.platform_present);
    assert!(w.menu_present);
}

#[test]
fn menu_playing_menu_cycle_spawns_and_despawns() {
    let mut w = GameWorld::new();

    w.start_playing(SHEET_TILES);
    assert_eq!(w.mode, GameMode::Playing);
    assert!(w.player.is_some());
    assert!(w.animator.is_some());
    assert!(w.platform_present);
    assert!(!w.menu_present);

    w.end_playing();
    assert_eq!(w.mode, GameMode::Menu);
    assert!(w.player.is_none());
    assert!(w.animator.is_none());
    assert!(!w.platform_present);
    assert!(w.menu_present);
}

#[test]
fn score_is_overwritten_from_horizontal_position() {
    let mut w = GameWorld::new();
    w.high_score = 50;
    w.start_playing(SHEET_TILES);
    w.player.as_mut().unwrap().position.x = 37;
    w.end_playing();
    assert_eq!(w.score, 37);
    // a larger previous high score stands
    assert_eq!(w.high_score, 50);
}

#[test]
fn high_score_rises_to_a_better_run() {
    let mut w = GameWorld::new();
    w.high_score = 20;
    w.start_playing(SHEET_TILES);
    w.player.as_mut().unwrap().position.x = 37;
    w.end_playing();
    assert_eq!(w.score, 37);
    assert_eq!(w.high_score, 37);
}

#[test]
fn scores_survive_repeated_sessions() {
    let mut w = GameWorld::new();
    w.start_playing(SHEET_TILES);
    w.player.as_mut().unwrap().position.x = 12;
    w.end_playing();
    assert_eq!(w.score, 12);
    assert_eq!(w.high_score, 12);

    w.start_playing(SHEET_TILES);
    assert_eq!(w.score, 12);
    assert_eq!(w.high_score, 12);
    w.player.as_mut().unwrap().position.x = 5;
    w.end_playing();
    assert_eq!(w.score, 5);
    assert_eq!(w.high_score, 12);
}

#[test]
fn a_session_starts_with_a_fresh_player() {
    let mut w = GameWorld::new();
    w.start_playing(SHEET_TILES);
    w.player.as_mut().unwrap().position.x = 99;
    w.end_playing();
    w.start_playing(SHEET_TILES);
    let p = w.player.as_ref().unwrap();
    assert_eq!(p.position.x, 0);
    assert_eq!(p.position.y, 0);
    assert_eq!(p.velocity.x, 0);
    assert_eq!(p.velocity.y, 20);
    let a = w.animator.as_ref().unwrap();
    assert_eq!(a.frame, 0);
    assert_eq!(a.frame_count, SHEET_TILES);
}

#[test]
fn world_tick_moves_player_and_gates_animation() {
    let mut w = GameWorld::new();
    w.start_playing(SHEET_TILES);

    // 60 ms tick: motion advances, the animation timer does not fire
    let fired = w.tick(released(), 60);
    assert!(!fired);
    let p = w.player.as_ref().unwrap();
    assert_eq!(p.position.y, 20);
    assert_eq!(p.velocity.y, 14);
    assert_eq!(w.animator.as_ref().unwrap().frame, 0);

    // next 60 ms tick: the timer fires and gliding pins frame 3
    let fired = w.tick(released(), 60);
    assert!(fired);
    let p = w.player.as_ref().unwrap();
    assert_eq!(p.position.y, 34);
    assert_eq!(p.velocity.y, 8);
    let a = w.animator.as_ref().unwrap();
    assert_eq!(a.frame, 3);
    assert_eq!(a.timer.elapsed_ms, 20);
    // facing right mirrors the sprite
    assert!(a.mirrored);
}

#[test]
fn scoring_distance_accumulates_from_held_right() {
    let mut w = GameWorld::new();
    w.start_playing(SHEET_TILES);
    let right = InputSnapshot { up: true, left: false, right: true };
    for _ in 0..5 {
        w.tick(right, 16);
    }
    // vx after impulse is 2,3,4,5,6 per tick; positions sum them
    assert_eq!(w.player.as_ref().unwrap().position.x, 20);
    w.end_playing();
    assert_eq!(w.score, 20);
    assert_eq!(w.high_score, 20);
}
