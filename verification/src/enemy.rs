//! The enemy state machine: pursuit toward the player, the melee attack
//! cycle with its at-most-one-damage guard, the death animation, and the
//! off-screen test. Spawn placement and speed are drawn through the random
//! wrapper and then handed to a fully specified constructor.

use vstd::prelude::*;

use crate::geometry::abs_val;
use crate::geometry::isqrt;
use crate::geometry::isqrt_u128;
use crate::geometry::lemma_isqrt_at_least;
use crate::player::player_hit;
use crate::player::Player;
use crate::rng::gen_range_i64;
use crate::Bounds;
use crate::Millis;
use crate::DT_MAX;
use crate::FRAME_STEP_MS;
use crate::MAX_DIM;

verus! {

/// Squared melee-engagement distance: 25 px, in squared milliunits.
pub const ATTACK_RANGE_SQ: i64 = 625_000_000;

/// Frame count of the pursuit (walk) animation.
pub const PURSUIT_FRAMES: u32 = 10;

/// Frame of the attack cycle on which damage lands.
pub const ATTACK_EFFECT_FRAME: u32 = 2;

/// Frame count of the attack cycle.
pub const ATTACK_FRAMES: u32 = 5;

/// Frame count of the death animation.
pub const ENEMY_DEATH_FRAMES: u32 = 9;

/// How far beyond the play area an enemy may drift before it counts as
/// off-screen (100 px).
pub const OFFSCREEN_MARGIN: i64 = 100_000;

/// How far outside the horizontal edge an enemy spawns (one sprite, 64 px).
pub const SPAWN_OFFSET: i64 = 64_000;

/// Spawn speed sample range, milliunits per second (80..150 px/s).
pub const SPAWN_SPEED_MIN: i64 = 80_000;

pub const SPAWN_SPEED_MAX: i64 = 150_000;

/// Hard cap on an enemy's speed; the difficulty multiplier saturates here
/// so the fixed-point movement arithmetic stays in range.
pub const SPEED_CAP: i64 = 1_000_000_000;

/// Largest distance an enemy can cover in one tick (`SPEED_CAP` times
/// `DT_MAX`, in milliunits).
pub const MOVE_CAP: i64 = 10_000_000_000;

/// Box that every enemy position stays inside across updates: the play
/// area, the spawn offsets, and one tick of overshoot all fit well within.
pub const ENEMY_BOX: i64 = 100_000_000_000;

/// The enemy's behavior state. `Dead` is terminal and means "ready for
/// removal".
#[derive(Clone, Copy, PartialEq, Eq, Structural, Debug)]
pub enum EnemyState {
    Alive,
    Dying,
    Dead,
    Attacking,
}

#[derive(Clone, Copy, PartialEq, Eq, Structural, Debug)]
pub struct Enemy {
    /// Position in milliunits.
    pub x: i64,
    pub y: i64,
    /// Pursuit speed, milliunits per second; fixed at spawn.
    pub speed: i64,
    pub frame: u32,
    /// Time accumulated since the last frame advance, in milliseconds.
    pub frame_timer: u32,
    pub facing_left: bool,
    pub state: EnemyState,
    /// Guards against landing damage twice within one attack cycle.
    pub did_attack: bool,
}

/// The values drawn at spawn time: which edge, the vertical position within
/// the ground band, and the base speed before the difficulty multiplier.
#[derive(Clone, Copy, PartialEq, Eq, Structural, Debug)]
pub struct SpawnSample {
    pub from_left: bool,
    pub y: i64,
    pub base_speed: i64,
}

/// Bottom of the vertical spawn band (64% of the play-area height).
pub open spec fn spawn_band_low(b: Bounds) -> int {
    b.height * 16 / 25
}

/// Top of the vertical spawn band (80% of the height, less one sprite).
pub open spec fn spawn_band_high(b: Bounds) -> int {
    b.height * 4 / 5 - SPAWN_OFFSET
}

impl SpawnSample {
    pub open spec fn wf(self, b: Bounds) -> bool {
        &&& spawn_band_low(b) <= self.y < spawn_band_high(b)
        &&& SPAWN_SPEED_MIN <= self.base_speed < SPAWN_SPEED_MAX
    }
}

impl Enemy {
    /// Well-formedness at tick boundaries.
    pub open spec fn wf(self) -> bool {
        &&& -ENEMY_BOX <= self.x <= ENEMY_BOX
        &&& -ENEMY_BOX <= self.y <= ENEMY_BOX
        &&& 1 <= self.speed <= SPEED_CAP
        &&& self.frame <= 9
        &&& (self.state == EnemyState::Dying ==> self.frame <= 8)
        &&& self.frame_timer <= FRAME_STEP_MS
    }
}

/// The enemy a given sample and difficulty level produce: just outside one
/// horizontal edge, inside the ground band, facing the interior, with the
/// sampled speed scaled by `1 + 0.1 * level` and saturated at the cap.
pub open spec fn spawn_enemy(b: Bounds, level: int, s: SpawnSample) -> Enemy {
    let raw: int = s.base_speed * (10 + level) / 10;
    Enemy {
        x: (if s.from_left { -SPAWN_OFFSET as int } else { b.width + SPAWN_OFFSET }) as i64,
        y: s.y,
        speed: (if raw > SPEED_CAP { SPEED_CAP as int } else { raw }) as i64,
        frame: 0,
        frame_timer: 0,
        facing_left: !s.from_left,
        state: EnemyState::Alive,
        did_attack: false,
    }
}

/// Distance an axis component moves this tick: the speed is projected onto
/// the axis by the ratio `delta / dist` and integrated over `dt`, all in
/// truncating fixed-point arithmetic.
pub open spec fn move_mag(speed: int, delta: int, dist: int, dt: int) -> int {
    ((speed * delta) / dist) * dt / 1000
}

/// Pursuit tick: engage if within melee range, otherwise move toward the
/// player along the normalized direction; then face the player and advance
/// the walk animation.
pub open spec fn step_alive(e: Enemy, dt: Millis, px: int, py: int) -> Enemy {
    let dx: int = px - e.x;
    let dy: int = py - e.y;
    let dd: int = dx * dx + dy * dy;
    let e1: Enemy = if dd < ATTACK_RANGE_SQ {
        Enemy { state: EnemyState::Attacking, frame: 0, frame_timer: 0, did_attack: false, ..e }
    } else {
        let dist: int = isqrt(dd as nat) as int;
        let mx: int = move_mag(e.speed as int, abs_val(dx), dist, dt as int);
        let my: int = move_mag(e.speed as int, abs_val(dy), dist, dt as int);
        Enemy {
            x: (if dx >= 0 { e.x + mx } else { e.x - mx }) as i64,
            y: (if dy >= 0 { e.y + my } else { e.y - my }) as i64,
            ..e
        }
    };
    let e2: Enemy = Enemy { facing_left: dx < 0, ..e1 };
    let t: int = e2.frame_timer + dt;
    if t > FRAME_STEP_MS {
        Enemy { frame: ((e2.frame + 1) % (PURSUIT_FRAMES as int)) as u32, frame_timer: 0, ..e2 }
    } else {
        Enemy { frame_timer: t as u32, ..e2 }
    }
}

/// Attack tick: the frame advances on the cadence; on the effect frame the
/// damage lands once per cycle; completing the cycle returns to pursuit.
pub open spec fn step_attacking(e: Enemy, dt: Millis) -> Enemy {
    let t: int = e.frame_timer + dt;
    if t > FRAME_STEP_MS {
        let f: int = e.frame + 1;
        let e1: Enemy = if f == ATTACK_EFFECT_FRAME && !e.did_attack {
            Enemy { did_attack: true, ..e }
        } else {
            e
        };
        if f >= ATTACK_FRAMES {
            Enemy { state: EnemyState::Alive, frame: 0, frame_timer: 0, did_attack: false, ..e1 }
        } else {
            Enemy { frame: f as u32, frame_timer: 0, ..e1 }
        }
    } else {
        Enemy { frame_timer: t as u32, ..e }
    }
}

/// Death-animation tick; completing the animation reaches `Dead`.
pub open spec fn step_enemy_dying(e: Enemy, dt: Millis) -> Enemy {
    let t: int = e.frame_timer + dt;
    if t > FRAME_STEP_MS {
        let f: int = e.frame + 1;
        if f >= ENEMY_DEATH_FRAMES {
            Enemy { frame: f as u32, frame_timer: 0, state: EnemyState::Dead, ..e }
        } else {
            Enemy { frame: f as u32, frame_timer: 0, ..e }
        }
    } else {
        Enemy { frame_timer: t as u32, ..e }
    }
}

/// The whole per-tick transition of one enemy.
pub open spec fn enemy_step(e: Enemy, dt: Millis, px: int, py: int) -> Enemy {
    match e.state {
        EnemyState::Alive => step_alive(e, dt, px, py),
        EnemyState::Attacking => step_attacking(e, dt),
        EnemyState::Dying => step_enemy_dying(e, dt),
        EnemyState::Dead => e,
    }
}

/// Whether this tick's transition lands damage on the player: only an
/// attacking enemy, only on the effect frame, and only if the per-cycle
/// guard has not fired yet.
pub open spec fn enemy_hits_player(e: Enemy, dt: Millis) -> bool {
    &&& e.state == EnemyState::Attacking
    &&& e.frame_timer + dt > FRAME_STEP_MS
    &&& e.frame + 1 == ATTACK_EFFECT_FRAME
    &&& !e.did_attack
}

/// An enemy far enough outside the horizontal play area to be swept away.
pub open spec fn off_screen_spec(e: Enemy, b: Bounds) -> bool {
    e.x < -OFFSCREEN_MARGIN || e.x > b.width + OFFSCREEN_MARGIN
}

/// One tick's axis movement never exceeds `MOVE_CAP`.
pub proof fn lemma_move_mag_bounds(speed: int, delta: int, dist: int, dt: int)
    requires
        0 <= delta <= dist,
        1 <= dist,
        0 <= speed <= SPEED_CAP,
        0 <= dt <= DT_MAX,
    ensures
        0 <= move_mag(speed, delta, dist, dt) <= MOVE_CAP,
{
    let q: int = (speed * delta) / dist;
    assert(0 <= q <= speed) by (nonlinear_arith)
        requires
            0 <= delta <= dist,
            1 <= dist,
            0 <= speed,
            q == (speed * delta) / dist,
    ;
    assert(0 <= q * dt <= SPEED_CAP * DT_MAX) by (nonlinear_arith)
        requires
            0 <= q <= SPEED_CAP,
            0 <= dt <= DT_MAX,
    ;
}

/// The direction projection never exceeds one: each axis delta is bounded
/// by the Euclidean distance floor.
pub proof fn lemma_delta_le_dist(dx: int, dy: int)
    requires
        dx * dx + dy * dy >= 1,
    ensures
        abs_val(dx) <= isqrt((dx * dx + dy * dy) as nat) as int,
        1 <= isqrt((dx * dx + dy * dy) as nat) as int,
{
    let a: int = abs_val(dx);
    assert(a * a == dx * dx && dy * dy >= 0) by (nonlinear_arith)
        requires
            a == dx || a == -dx,
    ;
    let dd: nat = (dx * dx + dy * dy) as nat;
    lemma_isqrt_at_least(dd, a as nat);
    lemma_isqrt_at_least(dd, 1);
}

impl Enemy {
    fn update_alive(&mut self, dt: Millis, player_x: i64, player_y: i64)
        requires
            old(self).wf(),
            old(self).state == EnemyState::Alive,
            dt <= DT_MAX,
            -MAX_DIM <= player_x <= MAX_DIM,
            -MAX_DIM <= player_y <= MAX_DIM,
        ensures
            *final(self) == step_alive(*old(self), dt, player_x as int, player_y as int),
            final(self).wf(),
    {
        let dx: i64 = player_x - self.x;
        let dy: i64 = player_y - self.y;
        let dxw: i128 = dx as i128;
        let dyw: i128 = dy as i128;
        proof {
            assert(0 <= dxw * dxw <= 0x400000000000000000000i128
                && 0 <= dyw * dyw <= 0x400000000000000000000i128) by (nonlinear_arith)
                requires
                    -0x20000000000i128 <= dxw <= 0x20000000000i128,
                    -0x20000000000i128 <= dyw <= 0x20000000000i128,
            ;
        }
        let dd: i128 = dxw * dxw + dyw * dyw;
        if dd < (ATTACK_RANGE_SQ as i128) {
            self.state = EnemyState::Attacking;
            self.frame = 0;
            self.frame_timer = 0;
            self.did_attack = false;
        } else {
            proof {
                lemma_delta_le_dist(dx as int, dy as int);
                lemma_delta_le_dist(dy as int, dx as int);
            }
            let dist: u128 = isqrt_u128(dd as u128);
            let sp: u128 = self.speed as u128;
            let adx: u128 = (if dx >= 0 { dx } else { -dx }) as u128;
            let ady: u128 = (if dy >= 0 { dy } else { -dy }) as u128;
            proof {
                assert(sp * adx <= 0x800000000000000000u128
                    && sp * ady <= 0x800000000000000000u128) by (nonlinear_arith)
                    requires
                        sp <= SPEED_CAP as u128,
                        adx <= 0x20000000000u128,
                        ady <= 0x20000000000u128,
                ;
            }
            let qx: u128 = sp * adx / dist;
            let qy: u128 = sp * ady / dist;
            proof {
                lemma_move_mag_bounds(sp as int, adx as int, dist as int, dt as int);
                lemma_move_mag_bounds(sp as int, ady as int, dist as int, dt as int);
                assert(qx <= sp && qy <= sp) by (nonlinear_arith)
                    requires
                        adx <= dist,
                        ady <= dist,
                        1 <= dist,
                        qx as int == (sp as int * adx as int) / (dist as int),
                        qy as int == (sp as int * ady as int) / (dist as int),
                ;
            }
            let mx: u128 = qx * (dt as u128) / 1000;
            let my: u128 = qy * (dt as u128) / 1000;
            let mxi: i64 = mx as i64;
            let myi: i64 = my as i64;
            self.x = if dx >= 0 {
                self.x + mxi
            } else {
                self.x - mxi
            };
            self.y = if dy >= 0 {
                self.y + myi
            } else {
                self.y - myi
            };
        }
        self.facing_left = dx < 0;
        self.frame_timer = self.frame_timer + dt;
        if self.frame_timer > FRAME_STEP_MS {
            self.frame = (self.frame + 1) % PURSUIT_FRAMES;
            self.frame_timer = 0;
        }
    }

    /// One simulation tick of this enemy. `player_x`/`player_y` are the
    /// player position sampled by the caller; an attack on its effect frame
    /// delivers damage through `player.hit()`.
    pub fn update(&mut self, dt: Millis, player_x: i64, player_y: i64, player: &mut Player)
        requires
            old(self).wf(),
            old(player).wf(),
            dt <= DT_MAX,
            -MAX_DIM <= player_x <= MAX_DIM,
            -MAX_DIM <= player_y <= MAX_DIM,
        ensures
            *final(self) == enemy_step(*old(self), dt, player_x as int, player_y as int),
            final(self).wf(),
            *final(player) == (if enemy_hits_player(*old(self), dt) {
                player_hit(*old(player))
            } else {
                *old(player)
            }),
            final(player).wf(),
    {
        proof {
            crate::player::lemma_player_hit_wf(*old(player));
        }
        match self.state {
            EnemyState::Alive => {
                self.update_alive(dt, player_x, player_y);
            },
            EnemyState::Attacking => {
                self.frame_timer = self.frame_timer + dt;
                if self.frame_timer > FRAME_STEP_MS {
                    self.frame = self.frame + 1;
                    self.frame_timer = 0;
                    if self.frame == ATTACK_EFFECT_FRAME && !self.did_attack {
                        player.hit();
                        self.did_attack = true;
                    }
                    if self.frame >= ATTACK_FRAMES {
                        self.state = EnemyState::Alive;
                        self.frame = 0;
                        self.did_attack = false;
                    }
                }
            },
            EnemyState::Dying => {
                self.frame_timer = self.frame_timer + dt;
                if self.frame_timer > FRAME_STEP_MS {
                    self.frame = self.frame + 1;
                    self.frame_timer = 0;
                    if self.frame >= ENEMY_DEATH_FRAMES {
                        self.state = EnemyState::Dead;
                    }
                }
            },
            EnemyState::Dead => {},
        }
    }

    /// Deterministic spawn from already-drawn sample values.
    pub fn from_sample(b: Bounds, level: u32, s: SpawnSample) -> (e: Enemy)
        requires
            b.wf(),
            s.wf(b),
            level >= 1,
        ensures
            e == spawn_enemy(b, level as int, s),
            e.wf(),
    {
        proof {
            assert(s.base_speed * (10 + level as i64) >= SPAWN_SPEED_MIN * 11) by (nonlinear_arith)
                requires
                    s.base_speed >= SPAWN_SPEED_MIN,
                    level >= 1,
            ;
            assert(s.base_speed * (10 + level as i64) <= SPAWN_SPEED_MAX * 0x200000000i64)
                by (nonlinear_arith)
                requires
                    0 <= s.base_speed <= SPAWN_SPEED_MAX,
                    1 <= (level as i64) <= 0x100000000i64,
            ;
        }
        let raw: i64 = s.base_speed * (10 + level as i64) / 10;
        Enemy {
            x: if s.from_left {
                -SPAWN_OFFSET
            } else {
                b.width + SPAWN_OFFSET
            },
            y: s.y,
            speed: if raw > SPEED_CAP {
                SPEED_CAP
            } else {
                raw
            },
            frame: 0,
            frame_timer: 0,
            facing_left: !s.from_left,
            state: EnemyState::Alive,
            did_attack: false,
        }
    }

    /// Spawn a fresh enemy: the side, height and speed are drawn through
    /// the random wrapper, everything else is the deterministic
    /// [`spawn_enemy`] of those draws.
    pub fn new(b: Bounds, level: u32) -> (e: Enemy)
        requires
            b.wf(),
            level >= 1,
        ensures
            exists|s: SpawnSample| s.wf(b) && e == #[trigger] spawn_enemy(b, level as int, s),
            e.wf(),
    {
        let s = sample_spawn(b);
        let e = Enemy::from_sample(b, level, s);
        proof {
            assert(s.wf(b) && e == spawn_enemy(b, level as int, s));
        }
        e
    }

    /// Whether this tick will land this enemy's attack — the moment the
    /// attack effect (sound, damage delivery) triggers. The delivery itself
    /// may still be a no-op inside the player's hit-flash window.
    pub fn attack_effect_fires(&self, dt: Millis) -> (r: bool)
        ensures
            r == enemy_hits_player(*self, dt),
    {
        self.state == EnemyState::Attacking
            && (self.frame_timer as u64) + (dt as u64) > FRAME_STEP_MS as u64
            && (self.frame as u64) + 1 == ATTACK_EFFECT_FRAME as u64
            && !self.did_attack
    }

    /// Whether this enemy has drifted far enough outside the play area to
    /// be removed by the sweep.
    pub fn is_off_screen(&self, b: Bounds) -> (r: bool)
        requires
            b.wf(),
        ensures
            r == off_screen_spec(*self, b),
    {
        self.x < -OFFSCREEN_MARGIN || self.x > b.width + OFFSCREEN_MARGIN
    }
}

/// Draw the spawn values: the edge (equal probability), a height uniform in
/// the ground band, and a base speed uniform in the spawn range.
pub fn sample_spawn(b: Bounds) -> (s: SpawnSample)
    requires
        b.wf(),
    ensures
        s.wf(b),
{
    let side: i64 = gen_range_i64(0, 2);
    let low: i64 = b.height * 16 / 25;
    let high: i64 = b.height * 4 / 5 - SPAWN_OFFSET;
    assert(low < high && (high - low) * 1024 >= high) by (nonlinear_arith)
        requires
            b.height >= crate::MIN_HEIGHT,
            low == b.height * 16 / 25,
            high == b.height * 4 / 5 - SPAWN_OFFSET,
    ;
    let y: i64 = gen_range_i64(low, high);
    let base: i64 = gen_range_i64(SPAWN_SPEED_MIN, SPAWN_SPEED_MAX);
    SpawnSample { from_left: side == 0, y, base_speed: base }
}

/// A spawned enemy is well-formed for any well-formed draw and any
/// difficulty level.
pub proof fn lemma_spawn_enemy_wf(b: Bounds, level: int, s: SpawnSample)
    requires
        b.wf(),
        s.wf(b),
        1 <= level <= u32::MAX,
    ensures
        spawn_enemy(b, level, s).wf(),
{
    let raw: int = s.base_speed * (10 + level) / 10;
    assert(88_000 <= raw <= 0x10000000000000i64) by (nonlinear_arith)
        requires
            SPAWN_SPEED_MIN <= s.base_speed <= SPAWN_SPEED_MAX,
            1 <= level <= u32::MAX,
            raw == s.base_speed * (10 + level) / 10,
    ;
}

/// Exactly one behavior state holds at any tick boundary.
pub proof fn lemma_enemy_state_exclusive(e: Enemy)
    ensures
        (if e.state == EnemyState::Alive { 1int } else { 0int })
        + (if e.state == EnemyState::Attacking { 1int } else { 0int })
        + (if e.state == EnemyState::Dying { 1int } else { 0int })
        + (if e.state == EnemyState::Dead { 1int } else { 0int }) == 1,
{
}

/// Damage lands at most once per attack cycle: the guard blocks further
/// damage, landing damage raises the guard, and the guard stays raised
/// until the cycle completes.
pub proof fn lemma_attack_damage_at_most_once(e: Enemy, dt: Millis, px: int, py: int)
    ensures
        e.did_attack ==> !enemy_hits_player(e, dt),
        enemy_hits_player(e, dt) ==> enemy_step(e, dt, px, py).did_attack,
        (e.state == EnemyState::Attacking && e.did_attack && enemy_step(
            e,
            dt,
            px,
            py,
        ).state == EnemyState::Attacking) ==> enemy_step(e, dt, px, py).did_attack,
{
}

/// `Dead` is terminal: a dead enemy's tick changes nothing, whatever the
/// delta or the player position.
pub proof fn lemma_dead_enemy_is_inert(e: Enemy, dt: Millis, px: int, py: int)
    requires
        e.state == EnemyState::Dead,
    ensures
        enemy_step(e, dt, px, py) == e,
        !enemy_hits_player(e, dt),
{
}

/// The per-tick transition preserves well-formedness.
pub proof fn lemma_enemy_step_wf(e: Enemy, dt: Millis, px: int, py: int)
    requires
        e.wf(),
        dt <= DT_MAX,
        -MAX_DIM <= px <= MAX_DIM,
        -MAX_DIM <= py <= MAX_DIM,
    ensures
        enemy_step(e, dt, px, py).wf(),
{
    if e.state == EnemyState::Alive {
        let dx: int = px - e.x;
        let dy: int = py - e.y;
        let dd: int = dx * dx + dy * dy;
        if dd >= ATTACK_RANGE_SQ {
            lemma_delta_le_dist(dx, dy);
            lemma_delta_le_dist(dy, dx);
            let dist: int = isqrt(dd as nat) as int;
            lemma_move_mag_bounds(e.speed as int, abs_val(dx), dist, dt as int);
            lemma_move_mag_bounds(e.speed as int, abs_val(dy), dist, dt as int);
        }
    }
}

} // verus!
