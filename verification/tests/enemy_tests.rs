use rainstorm::enemy::Enemy;
use rainstorm::enemy::EnemyState;
use rainstorm::enemy::SpawnSample;
use rainstorm::player::Player;
use rainstorm::Bounds;

fn bounds() -> Bounds {
    Bounds { width: 1_280_000, height: 720_000 }
}

fn enemy_at(x: i64, y: i64, speed: i64) -> Enemy {
    Enemy {
        x,
        y,
        speed,
        frame: 0,
        frame_timer: 0,
        facing_left: false,
        state: EnemyState::Alive,
        did_attack: false,
    }
}

#[test]
fn pursuit_moves_toward_player() {
    let b = bounds();
    let mut p = Player::new(b);
    let mut e = enemy_at(1_000_000, p.y, 100_000);
    let health = p.health;
    e.update(500, p.x, p.y, &mut p);
    // dx = -360,000, dy = 0: a straight horizontal step of speed*dt.
    assert_eq!(e.x, 950_000);
    assert_eq!(e.y, 526_000);
    assert!(e.facing_left);
    assert_eq!(e.state, EnemyState::Alive);
    assert_eq!(e.frame, 1);
    assert_eq!(p.health, health);
}

#[test]
fn pursuit_engages_at_melee_range() {
    let b = bounds();
    let mut p = Player::new(b);
    // 10 px away: inside the 25 px engagement distance.
    let mut e = enemy_at(p.x + 10_000, p.y, 100_000);
    e.update(50, p.x, p.y, &mut p);
    assert_eq!(e.state, EnemyState::Attacking);
    assert_eq!(e.frame, 0);
    assert!(!e.did_attack);
    assert!(e.facing_left);
    assert_eq!(p.health, 100);
}

#[test]
fn attack_cycle_lands_damage_once() {
    let b = bounds();
    let mut p = Player::new(b);
    let mut e = enemy_at(p.x + 10_000, p.y, 100_000);
    for _ in 0..7 {
        e.update(101, p.x, p.y, &mut p);
    }
    // One full attack cycle landed one hit; the second cycle's effect frame
    // found the player still hit-flashing, so damage stayed at one dose.
    assert_eq!(p.health, 90);
    assert!(p.is_hit);
}

#[test]
fn attack_effect_moment_is_exposed() {
    let mut e = enemy_at(650_000, 526_000, 100_000);
    e.state = EnemyState::Attacking;
    e.frame = 1;
    // The frame advance onto the effect frame triggers the attack effect.
    assert!(e.attack_effect_fires(101));
    // No frame advance yet, guard already fired, or a different frame: no.
    assert!(!e.attack_effect_fires(50));
    e.did_attack = true;
    assert!(!e.attack_effect_fires(101));
    e.did_attack = false;
    e.frame = 2;
    assert!(!e.attack_effect_fires(101));
}

#[test]
fn death_animation_reaches_dead() {
    let b = bounds();
    let mut p = Player::new(b);
    let mut e = enemy_at(200_000, 500_000, 100_000);
    e.state = EnemyState::Dying;
    for _ in 0..8 {
        e.update(150, p.x, p.y, &mut p);
        assert_eq!(e.state, EnemyState::Dying);
    }
    e.update(150, p.x, p.y, &mut p);
    assert_eq!(e.state, EnemyState::Dead);
    assert_eq!(e.frame, 9);
    // Dead is terminal: further updates change nothing.
    let before = e;
    e.update(150, p.x, p.y, &mut p);
    assert_eq!(e, before);
}

#[test]
fn spawn_from_sample_applies_difficulty() {
    let b = bounds();
    let s = SpawnSample { from_left: false, y: 500_000, base_speed: 100_000 };
    let e = Enemy::from_sample(b, 1, s);
    assert_eq!(e.x, 1_344_000);
    assert_eq!(e.y, 500_000);
    // 100 px/s base, scaled by 1 + 0.1 * level = 1.1.
    assert_eq!(e.speed, 110_000);
    assert!(e.facing_left);
    assert_eq!(e.state, EnemyState::Alive);

    let left = SpawnSample { from_left: true, y: 470_000, base_speed: 80_000 };
    let e2 = Enemy::from_sample(b, 3, left);
    assert_eq!(e2.x, -64_000);
    assert!(!e2.facing_left);
    assert_eq!(e2.speed, 104_000);
}

#[test]
fn random_spawn_stays_in_band() {
    let b = bounds();
    for level in 1..5u32 {
        let e = Enemy::new(b, level);
        assert!(e.x == -64_000 || e.x == 1_344_000);
        // The ground band for this play area: 64% to 80% of height, less
        // one sprite.
        assert!(460_800 <= e.y && e.y < 512_000);
        let lo = 80_000i64 * (10 + level as i64) / 10;
        let hi = 150_000i64 * (10 + level as i64) / 10;
        assert!(lo <= e.speed && e.speed < hi);
        assert_eq!(e.state, EnemyState::Alive);
    }
}

#[test]
fn off_screen_needs_the_full_margin() {
    let b = bounds();
    let mut e = enemy_at(1_380_000, 500_000, 100_000);
    // Exactly at width + 100 px: still on screen.
    assert!(!e.is_off_screen(b));
    e.x = 1_380_001;
    assert!(e.is_off_screen(b));
    e.x = -100_000;
    assert!(!e.is_off_screen(b));
    e.x = -100_001;
    assert!(e.is_off_screen(b));
}
