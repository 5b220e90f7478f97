use rainstorm::enemy::Enemy;
use rainstorm::enemy::EnemyState;
use rainstorm::enemy::SpawnSample;
use rainstorm::manager::EnemyManager;
use rainstorm::player::Player;
use rainstorm::Bounds;

fn bounds() -> Bounds {
    Bounds { width: 1_280_000, height: 720_000 }
}

fn sample() -> SpawnSample {
    SpawnSample { from_left: true, y: 500_000, base_speed: 100_000 }
}

fn enemy_at(x: i64, y: i64, speed: i64) -> Enemy {
    Enemy {
        x,
        y,
        speed,
        frame: 0,
        frame_timer: 0,
        facing_left: false,
        state: EnemyState::Alive,
        did_attack: false,
    }
}

#[test]
fn spawn_schedule_over_ten_half_second_ticks() {
    let b = bounds();
    let mut p = Player::new(b);
    let mut m = EnemyManager::new();
    for _ in 0..10 {
        m.update_with(500, &mut p, b, sample());
    }
    // One spawn event at t = 3.0 s, then the accumulator rebuilt to 2.0 s.
    assert_eq!(m.enemies.len(), 1);
    assert_eq!(m.spawn_timer, 2000);
    assert_eq!(m.spawn_cooldown, 3000);
    assert_eq!(m.difficulty_level, 1);
}

#[test]
fn difficulty_escalates_every_fifteen_seconds() {
    let b = bounds();
    let mut p = Player::new(b);
    let mut m = EnemyManager::new();
    for _ in 0..14 {
        m.update_with(1000, &mut p, b, sample());
    }
    assert_eq!(m.difficulty_level, 1);
    assert_eq!(m.spawn_cooldown, 3000);
    m.update_with(1000, &mut p, b, sample());
    // The fifteenth second: level up, cooldown shrinks by a tenth.
    assert_eq!(m.difficulty_level, 2);
    assert_eq!(m.spawn_cooldown, 2700);
    assert_eq!(m.difficulty_timer, 0);
    // Spawns kept arriving on schedule meanwhile.
    assert_eq!(m.enemies.len(), 5);
}

#[test]
fn cooldown_never_drops_below_floor() {
    let b = bounds();
    let mut p = Player::new(b);
    let mut m = EnemyManager::new();
    let mut previous = m.spawn_cooldown;
    for _ in 0..400 {
        m.update_with(1000, &mut p, b, sample());
        assert!(m.spawn_cooldown <= previous);
        assert!(m.spawn_cooldown >= 500);
        previous = m.spawn_cooldown;
    }
    assert_eq!(m.spawn_cooldown, 500);
}

#[test]
fn shot_kills_first_match_only() {
    let b = bounds();
    let mut p = Player::new(b);
    p.facing_left = true;
    p.did_shoot = true;
    let mut m = EnemyManager::new();
    m.enemies.push(enemy_at(340_000, p.y, 100_000));
    m.enemies.push(enemy_at(440_000, p.y, 100_000));
    m.update_with(500, &mut p, b, sample());
    assert_eq!(m.enemies.len(), 2);
    // The first enemy in collection order takes the shot and drops into the
    // death animation from frame zero; the scan stops there.
    assert_eq!(m.enemies[0].state, EnemyState::Dying);
    assert_eq!(m.enemies[0].frame, 0);
    assert_eq!(m.enemies[1].state, EnemyState::Alive);
    assert!(!p.did_shoot);
}

#[test]
fn shot_respects_facing_direction() {
    let b = bounds();
    let mut p = Player::new(b);
    // Enemy on the left, player facing right: no kill, flag still consumed.
    p.facing_left = false;
    p.did_shoot = true;
    let mut m = EnemyManager::new();
    m.enemies.push(enemy_at(340_000, p.y, 100_000));
    m.update_with(500, &mut p, b, sample());
    assert_eq!(m.enemies[0].state, EnemyState::Alive);
    assert!(!p.did_shoot);
}

#[test]
fn sweep_removes_off_screen_enemy_regardless_of_state() {
    let b = bounds();
    let mut p = Player::new(b);
    let mut m = EnemyManager::new();
    // Beyond width + 100 px, and too slow to come back inside this tick.
    let mut far = enemy_at(1_480_000, 500_000, 1_000);
    far.state = EnemyState::Alive;
    m.enemies.push(far);
    m.update_with(500, &mut p, b, sample());
    assert_eq!(m.enemies.len(), 0);
}

#[test]
fn sweep_removes_dead_enemy() {
    let b = bounds();
    let mut p = Player::new(b);
    let mut m = EnemyManager::new();
    let mut corpse = enemy_at(700_000, 500_000, 100_000);
    corpse.state = EnemyState::Dead;
    corpse.frame = 9;
    m.enemies.push(corpse);
    m.enemies.push(enemy_at(200_000, 500_000, 100_000));
    m.update_with(500, &mut p, b, sample());
    assert_eq!(m.enemies.len(), 1);
    assert_eq!(m.enemies[0].state, EnemyState::Alive);
}

#[test]
fn attacking_enemy_damages_player_through_manager() {
    let b = bounds();
    let mut p = Player::new(b);
    let mut m = EnemyManager::new();
    m.enemies.push(enemy_at(p.x + 10_000, p.y, 100_000));
    for _ in 0..2 {
        m.update_with(101, &mut p, b, sample());
    }
    assert_eq!(p.health, 90);
    assert!(p.is_hit);
}

#[test]
fn reset_restores_initial_state() {
    let b = bounds();
    let mut p = Player::new(b);
    let mut m = EnemyManager::new();
    for _ in 0..20 {
        m.update_with(1000, &mut p, b, sample());
    }
    assert!(m.enemies.len() > 0);
    m.reset();
    assert_eq!(m.enemies.len(), 0);
    assert_eq!(m.spawn_timer, 0);
    assert_eq!(m.spawn_cooldown, 3000);
    assert_eq!(m.difficulty_timer, 0);
    assert_eq!(m.difficulty_level, 1);
}

#[test]
fn randomized_update_consumes_fire_flag() {
    let b = bounds();
    let mut p = Player::new(b);
    p.did_shoot = true;
    let mut m = EnemyManager::new();
    m.update(500, &mut p, b);
    assert!(!p.did_shoot);
    // And the flag stays down on a tick that saw no shot.
    m.update(500, &mut p, b);
    assert!(!p.did_shoot);
}
