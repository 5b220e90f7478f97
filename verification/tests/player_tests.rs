use rainstorm::player::AnimationState;
use rainstorm::player::Player;
use rainstorm::Bounds;
use rainstorm::Input;

fn bounds() -> Bounds {
    Bounds { width: 1_280_000, height: 720_000 }
}

fn held(f: impl Fn(&mut Input)) -> Input {
    let mut i = Input::none();
    f(&mut i);
    i
}

#[test]
fn new_player_starts_centered_and_full() {
    let b = bounds();
    let p = Player::new(b);
    assert_eq!(p.x, 640_000);
    assert_eq!(p.y, 526_000);
    assert_eq!(p.health, 100);
    assert_eq!(p.shots_fired, 12);
    assert_eq!(p.score, 0);
    assert!(!p.is_dead);
    assert_eq!(p.state, AnimationState::Idle);
}

#[test]
fn hit_applies_damage_once_within_flash_window() {
    let b = bounds();
    let mut p = Player::new(b);
    p.hit();
    assert_eq!(p.health, 90);
    assert!(p.is_hit);
    // A second hit inside the flash window is a silent no-op.
    p.hit();
    assert_eq!(p.health, 90);
    assert!(!p.is_dead);
}

#[test]
fn hit_leaves_animation_state_untouched() {
    let b = bounds();
    let mut p = Player::new(b);
    p.frame = 5;
    p.frame_timer = 40;
    p.hit();
    // A non-lethal hit changes the hit flash and health, nothing of the
    // animation: state, frame and cadence timer all keep their values.
    assert_eq!(p.health, 90);
    assert!(p.is_hit);
    assert_eq!(p.frame, 5);
    assert_eq!(p.frame_timer, 40);
    assert_eq!(p.state, AnimationState::Idle);
}

#[test]
fn lethal_hit_triggers_death() {
    let b = bounds();
    let mut p = Player::new(b);
    for _ in 0..9 {
        p.hit();
        // Let the flash window elapse so the next hit lands.
        p.update(Input::none(), 600, b);
    }
    assert_eq!(p.health, 10);
    p.hit();
    assert_eq!(p.health, 0);
    assert!(p.is_dead);
    assert_eq!(p.state, AnimationState::Dying);
    assert!(!p.show_death_menu);
}

#[test]
fn dead_player_only_animates() {
    let b = bounds();
    let mut p = Player::new(b);
    p.health = 10;
    p.hit();
    assert!(p.is_dead);
    let x = p.x;
    let y = p.y;
    let move_input = held(|i| {
        i.right = true;
        i.fire = true;
    });
    for _ in 0..6 {
        p.update(move_input, 150, b);
    }
    assert_eq!(p.x, x);
    assert_eq!(p.y, y);
    assert_eq!(p.health, 0);
    assert_eq!(p.shots_fired, 12);
    assert!(p.is_dead);
    // The death animation clamps to its last frame and reveals the prompt.
    assert_eq!(p.frame, 3);
    assert!(p.show_death_menu);
}

#[test]
fn shot_cycle_fires_scores_and_chains() {
    let b = bounds();
    let mut p = Player::new(b);
    let fire = held(|i| i.fire = true);
    p.update(fire, 150, b);
    assert_eq!(p.state, AnimationState::Shooting);
    assert_eq!(p.frame, 1);
    assert!(!p.did_shoot);
    p.update(fire, 150, b);
    // The effect frame raises the fire event and scores.
    assert_eq!(p.frame, 2);
    assert!(p.did_shoot);
    assert_eq!(p.score, 10);
    p.update(fire, 150, b);
    assert_eq!(p.frame, 3);
    assert!(!p.did_shoot);
    p.update(fire, 150, b);
    // Cycle complete: one round spent, and fire still held chains a new one.
    assert_eq!(p.shots_fired, 11);
    assert_eq!(p.frame, 0);
    assert_eq!(p.state, AnimationState::Shooting);
    assert!(p.is_shooting);
}

#[test]
fn releasing_fire_ends_the_cycle() {
    let b = bounds();
    let mut p = Player::new(b);
    let fire = held(|i| i.fire = true);
    p.update(fire, 150, b);
    for _ in 0..3 {
        p.update(Input::none(), 150, b);
    }
    assert_eq!(p.state, AnimationState::Idle);
    assert!(!p.is_shooting);
    assert_eq!(p.shots_fired, 11);
}

#[test]
fn recharge_refills_magazine() {
    let b = bounds();
    let mut p = Player::new(b);
    p.shots_fired = 0;
    let reload = held(|i| i.reload = true);
    p.update(reload, 150, b);
    assert_eq!(p.state, AnimationState::Recharging);
    assert!(p.is_recharging);
    for _ in 0..12 {
        p.update(Input::none(), 150, b);
    }
    assert_eq!(p.shots_fired, 12);
    assert_eq!(p.state, AnimationState::Idle);
    assert!(!p.is_recharging);
    assert_eq!(p.frame, 0);
}

#[test]
fn movement_speeds_states_and_clamp() {
    let b = bounds();
    let mut p = Player::new(b);
    let sprint_right = held(|i| {
        i.right = true;
        i.sprint = true;
    });
    // The first tick still moves at the previous tick's walking speed.
    p.update(sprint_right, 1000, b);
    assert_eq!(p.x, 940_000);
    assert_eq!(p.state, AnimationState::Running);
    assert!(!p.facing_left);
    assert_eq!(p.speed, 500_000);
    // Now at sprint speed, and clamped at the right margin.
    p.update(sprint_right, 1000, b);
    assert_eq!(p.x, 1_177_600);
    let left = held(|i| i.left = true);
    p.update(left, 1000, b);
    assert_eq!(p.state, AnimationState::Walking);
    assert!(p.facing_left);
    p.update(Input::none(), 1000, b);
    assert_eq!(p.state, AnimationState::Idle);
}

#[test]
fn vertical_movement_stays_in_ground_band() {
    let b = bounds();
    let mut p = Player::new(b);
    let up = held(|i| i.up = true);
    for _ in 0..5 {
        p.update(up, 1000, b);
    }
    // Clamped at the top of the ground band: 80% of height minus 160 px.
    assert_eq!(p.y, 416_000);
    let down = held(|i| i.down = true);
    for _ in 0..5 {
        p.update(down, 1000, b);
    }
    // Clamped at the bottom: height minus 160 px.
    assert_eq!(p.y, 560_000);
}

#[test]
fn hit_flash_clears_after_half_second() {
    let b = bounds();
    let mut p = Player::new(b);
    p.hit();
    assert!(p.is_hit);
    p.update(Input::none(), 400, b);
    assert!(p.is_hit);
    p.update(Input::none(), 200, b);
    assert!(!p.is_hit);
    assert_eq!(p.hit_timer, 0);
}
