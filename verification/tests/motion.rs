use flappy::input::InputSnapshot;
use flappy::player::{Direction, Player, PlayerState, Vec2};

fn released() -> InputSnapshot {
    InputSnapshot { up: false, left: false, right: false }
}

fn up_only() -> InputSnapshot {
    InputSnapshot { up: true, left: false, right: false }
}

#[test]
fn initial_player_values() {
    let p = Player::new();
    assert_eq!(p.position, Vec2 { x: 0, y: 0 });
    assert_eq!(p.velocity, Vec2 { x: 0, y: 20 });
    assert_eq!(p.state, PlayerState::Gliding);
    assert_eq!(p.direction, Direction::Right);
}

#[test]
fn released_tick_from_flapping_glides_and_decays() {
    let mut p = Player::new();
    p.position = Vec2 { x: 5, y: 5 };
    p.velocity = Vec2 { x: 3, y: 10 };
    p.state = PlayerState::Flapping;
    p.tick(released());
    assert_eq!(p.state, PlayerState::Gliding);
    // pure decay: gravity on y, resistance toward zero on x
    assert_eq!(p.velocity, Vec2 { x: 2, y: 4 });
    // position advanced by the velocity before the physics pass
    assert_eq!(p.position, Vec2 { x: 8, y: 15 });
    assert_eq!(p.direction, Direction::Right);
}

#[test]
fn sustained_flap_gains_four_per_tick() {
    let mut p = Player::new();
    assert_eq!(p.velocity.y, 20);
    for n in 1..=5i64 {
        p.tick(up_only());
        assert_eq!(p.velocity.y, 20 + 4 * n);
    }
}

#[test]
fn one_flap_tick_from_twenty() {
    let mut p = Player::new();
    p.tick(up_only());
    assert_eq!(p.velocity.y, 24);
}

#[test]
fn resistance_reaches_zero_exactly_and_stays() {
    let mut p = Player::new();
    p.velocity = Vec2 { x: 1, y: 0 };
    p.tick(released());
    assert_eq!(p.velocity.x, 0);
    for _ in 0..10 {
        p.tick(released());
        assert_eq!(p.velocity.x, 0);
    }
}

#[test]
fn resistance_pulls_negative_velocity_up() {
    let mut p = Player::new();
    p.velocity = Vec2 { x: -3, y: 0 };
    p.tick(released());
    assert_eq!(p.velocity.x, -2);
    p.tick(released());
    assert_eq!(p.velocity.x, -1);
    p.tick(released());
    assert_eq!(p.velocity.x, 0);
    p.tick(released());
    assert_eq!(p.velocity.x, 0);
}

#[test]
fn left_and_right_held_together_cancel() {
    let mut p = Player::new();
    let both = InputSnapshot { up: false, left: true, right: true };
    p.tick(both);
    // the impulses cancel and resistance finds zero untouched
    assert_eq!(p.velocity.x, 0);
    assert_eq!(p.state, PlayerState::Flapping);
    // the right-key branch runs last, so it wins the facing
    assert_eq!(p.direction, Direction::Right);
}

#[test]
fn left_key_sets_facing_and_velocity() {
    let mut p = Player::new();
    let left = InputSnapshot { up: false, left: true, right: false };
    p.tick(left);
    // impulse -2, then resistance toward zero by 1
    assert_eq!(p.velocity.x, -1);
    assert_eq!(p.direction, Direction::Left);
    assert_eq!(p.state, PlayerState::Flapping);
}

#[test]
fn gravity_applies_every_tick_unconditionally() {
    let mut p = Player::new();
    p.velocity = Vec2 { x: 0, y: 0 };
    p.tick(released());
    assert_eq!(p.velocity.y, -6);
    p.tick(released());
    assert_eq!(p.velocity.y, -12);
}

#[test]
fn sticky_states_survive_released_ticks() {
    for sticky in [PlayerState::Idle, PlayerState::Walking, PlayerState::Pecking] {
        let mut p = Player::new();
        p.state = sticky;
        p.tick(released());
        assert_eq!(p.state, sticky);
        // any held key still forces flapping
        p.tick(up_only());
        assert_eq!(p.state, PlayerState::Flapping);
    }
}

#[test]
fn position_integrates_post_impulse_velocity() {
    let mut p = Player::new();
    p.position = Vec2 { x: 10, y: 10 };
    p.velocity = Vec2 { x: 0, y: 0 };
    p.tick(up_only());
    // the flap impulse lands before integration, gravity after it
    assert_eq!(p.position, Vec2 { x: 10, y: 20 });
    assert_eq!(p.velocity.y, 4);
}
