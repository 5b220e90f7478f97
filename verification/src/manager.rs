//! The enemy manager: owns the enemy collection, runs spawn scheduling and
//! difficulty escalation, dispatches every enemy's update (which may land
//! damage on the player), resolves the player's fire event against the
//! collection, and sweeps out dead and off-screen enemies.
//!
//! The whole tick is specified as [`manager_step`], a composition of one
//! spec function per stage, and [`EnemyManager::update_with`] is proved to
//! compute exactly it.

use vstd::prelude::*;

use crate::enemy::enemy_step;
use crate::enemy::enemy_hits_player;
use crate::enemy::lemma_enemy_step_wf;
use crate::enemy::off_screen_spec;
use crate::enemy::sample_spawn;
use crate::enemy::spawn_enemy;
use crate::enemy::Enemy;
use crate::enemy::EnemyState;
use crate::enemy::SpawnSample;
use crate::geometry::abs_val;
use crate::player::lemma_player_hit_wf;
use crate::player::player_hit;
use crate::player::Player;
use crate::Bounds;
use crate::Millis;
use crate::DT_MAX;

verus! {

/// Time between spawns at the start (3 s).
pub const SPAWN_COOLDOWN_START: u32 = 3000;

/// Floor under the spawn cooldown (0.5 s).
pub const SPAWN_COOLDOWN_MIN: u32 = 500;

/// Elapsed time per difficulty increment (15 s).
pub const DIFFICULTY_STEP_MS: u32 = 15_000;

/// Horizontal reach of a shot (400 px).
pub const SHOT_RANGE: i64 = 400_000;

/// Vertical band within which a shot connects (40 px).
pub const SHOT_BAND: i64 = 40_000;

pub struct EnemyManager {
    pub enemies: Vec<Enemy>,
    /// Time accumulated toward the next spawn, in milliseconds.
    pub spawn_timer: u32,
    /// Current time between spawns; shrinks with difficulty.
    pub spawn_cooldown: u32,
    /// Time accumulated toward the next difficulty increment.
    pub difficulty_timer: u32,
    pub difficulty_level: u32,
}

/// The manager as its contracts see it: the enemy sequence and the timer
/// state as unbounded integers.
#[verifier::ext_equal]
pub struct ManagerModel {
    pub enemies: Seq<Enemy>,
    pub spawn_timer: int,
    pub spawn_cooldown: int,
    pub difficulty_timer: int,
    pub difficulty_level: int,
}

impl View for EnemyManager {
    type V = ManagerModel;

    open spec fn view(&self) -> ManagerModel {
        ManagerModel {
            enemies: self.enemies@,
            spawn_timer: self.spawn_timer as int,
            spawn_cooldown: self.spawn_cooldown as int,
            difficulty_timer: self.difficulty_timer as int,
            difficulty_level: self.difficulty_level as int,
        }
    }
}

impl ManagerModel {
    /// Well-formedness at tick boundaries.
    pub open spec fn wf(self) -> bool {
        &&& SPAWN_COOLDOWN_MIN <= self.spawn_cooldown <= SPAWN_COOLDOWN_START
        &&& 0 <= self.spawn_timer < self.spawn_cooldown
        &&& 0 <= self.difficulty_timer < DIFFICULTY_STEP_MS
        &&& 1 <= self.difficulty_level <= u32::MAX
        &&& forall|i: int|
            0 <= i < self.enemies.len() ==> (#[trigger] self.enemies[i]).wf()
    }

    /// The freshly constructed (or reset) manager.
    pub open spec fn init_spec() -> ManagerModel {
        ManagerModel {
            enemies: Seq::empty(),
            spawn_timer: 0,
            spawn_cooldown: SPAWN_COOLDOWN_START as int,
            difficulty_timer: 0,
            difficulty_level: 1,
        }
    }
}

/// Stage one: accumulate both timers; every 15 s of accumulated time the
/// difficulty level rises and the spawn cooldown shrinks by a tenth,
/// floored at half a second.
pub open spec fn tick_timers(m: ManagerModel, dt: Millis) -> ManagerModel {
    let st: int = m.spawn_timer + dt;
    let dtt: int = m.difficulty_timer + dt;
    if dtt >= DIFFICULTY_STEP_MS {
        let lvl: int = if m.difficulty_level < u32::MAX {
            m.difficulty_level + 1
        } else {
            m.difficulty_level
        };
        let cd: int = m.spawn_cooldown * 9 / 10;
        let cd2: int = if cd < SPAWN_COOLDOWN_MIN {
            SPAWN_COOLDOWN_MIN as int
        } else {
            cd
        };
        ManagerModel {
            spawn_timer: st,
            difficulty_timer: 0,
            difficulty_level: lvl,
            spawn_cooldown: cd2,
            ..m
        }
    } else {
        ManagerModel { spawn_timer: st, difficulty_timer: dtt, ..m }
    }
}

/// Stage two: once the spawn timer reaches the cooldown, exactly one enemy
/// is appended and the timer resets.
pub open spec fn maybe_spawn(m: ManagerModel, b: Bounds, s: SpawnSample) -> ManagerModel {
    if m.spawn_timer >= m.spawn_cooldown {
        ManagerModel {
            enemies: m.enemies.push(spawn_enemy(b, m.difficulty_level, s)),
            spawn_timer: 0,
            ..m
        }
    } else {
        m
    }
}

/// Stage three: every enemy takes its tick in collection order, each one
/// reading the player position as it then stands and possibly landing
/// damage.
pub open spec fn update_all(es: Seq<Enemy>, p: Player, dt: Millis) -> (Seq<Enemy>, Player)
    decreases es.len(),
{
    if es.len() == 0 {
        (Seq::<Enemy>::empty(), p)
    } else {
        let e1: Enemy = enemy_step(es[0], dt, p.x as int, p.y as int);
        let p1: Player = if enemy_hits_player(es[0], dt) {
            player_hit(p)
        } else {
            p
        };
        let r = update_all(es.drop_first(), p1, dt);
        (seq![e1] + r.0, r.1)
    }
}

/// A shot connects with an enemy that is still active, within horizontal
/// reach and the vertical band, on the side the player faces.
pub open spec fn qualifies(e: Enemy, p: Player) -> bool {
    &&& (e.state == EnemyState::Alive || e.state == EnemyState::Attacking)
    &&& p.x - e.x <= SHOT_RANGE
    &&& p.x - e.x >= -SHOT_RANGE
    &&& abs_val(p.y - e.y) < SHOT_BAND
    &&& p.facing_left == (e.x < p.x)
}

/// The index of the first qualifying enemy in collection order, if any.
pub open spec fn first_target(es: Seq<Enemy>, p: Player) -> Option<int>
    decreases es.len(),
{
    if es.len() == 0 {
        Option::<int>::None
    } else if qualifies(es[0], p) {
        Option::Some(0int)
    } else {
        match first_target(es.drop_first(), p) {
            Option::Some(j) => Option::Some(j + 1),
            Option::None => Option::None,
        }
    }
}

/// A shot enemy drops into the death animation from its first frame.
pub open spec fn kill_enemy(e: Enemy) -> Enemy {
    Enemy { state: EnemyState::Dying, frame: 0, frame_timer: 0, ..e }
}

/// Stage four: if the player's fire event is up, the first qualifying
/// enemy (and only it) is killed, and the event is consumed either way.
pub open spec fn apply_shot(es: Seq<Enemy>, p: Player) -> (Seq<Enemy>, Player) {
    if !p.did_shoot {
        (es, p)
    } else {
        let p2 = Player { did_shoot: false, ..p };
        match first_target(es, p) {
            Option::Some(i) => (es.update(i, kill_enemy(es[i])), p2),
            Option::None => (es, p2),
        }
    }
}

/// An enemy survives the sweep unless it is dead or off-screen.
pub open spec fn keep_enemy(e: Enemy, b: Bounds) -> bool {
    e.state != EnemyState::Dead && !off_screen_spec(e, b)
}

/// Stage five: drop every dead or off-screen enemy, keeping order.
pub open spec fn sweep(es: Seq<Enemy>, b: Bounds) -> Seq<Enemy>
    decreases es.len(),
{
    if es.len() == 0 {
        Seq::<Enemy>::empty()
    } else {
        let rest = sweep(es.drop_first(), b);
        if keep_enemy(es[0], b) {
            seq![es[0]] + rest
        } else {
            rest
        }
    }
}

/// The manager's whole tick: timers, at most one spawn, every enemy's
/// update, shot resolution, then the removal sweep.
pub open spec fn manager_step(m: ManagerModel, p: Player, dt: Millis, b: Bounds, s: SpawnSample)
    -> (ManagerModel, Player) {
    let m2 = maybe_spawn(tick_timers(m, dt), b, s);
    let r3 = update_all(m2.enemies, p, dt);
    let r4 = apply_shot(r3.0, r3.1);
    (ManagerModel { enemies: sweep(r4.0, b), ..m2 }, r4.1)
}

/// Unfolding `update_all` from the back: appending one enemy appends its
/// stepped image, and damage lands on the player state the prefix left.
pub proof fn lemma_update_all_push(es: Seq<Enemy>, e: Enemy, p: Player, dt: Millis)
    ensures
        ({
            let r = update_all(es, p, dt);
            let e1 = enemy_step(e, dt, r.1.x as int, r.1.y as int);
            let p1 = if enemy_hits_player(e, dt) {
                player_hit(r.1)
            } else {
                r.1
            };
            update_all(es.push(e), p, dt) == (r.0.push(e1), p1)
        }),
    decreases es.len(),
{
    reveal_with_fuel(update_all, 3);
    let r = update_all(es, p, dt);
    let e1 = enemy_step(e, dt, r.1.x as int, r.1.y as int);
    let p1 = if enemy_hits_player(e, dt) {
        player_hit(r.1)
    } else {
        r.1
    };
    if es.len() == 0 {
        assert(es.push(e).drop_first() =~= Seq::<Enemy>::empty());
        assert(es.push(e)[0] == e);
        assert(update_all(es.push(e), p, dt).0 =~= r.0.push(e1));
    } else {
        let q1: Player = if enemy_hits_player(es[0], dt) {
            player_hit(p)
        } else {
            p
        };
        assert(es.push(e)[0] == es[0]);
        assert(es.push(e).drop_first() =~= es.drop_first().push(e));
        lemma_update_all_push(es.drop_first(), e, q1, dt);
        assert(update_all(es.push(e), p, dt).0 =~= r.0.push(e1));
    }
}

/// `update_all` preserves length and well-formedness, and touches nothing
/// of the player but what damage touches: position, fire event and facing
/// survive unchanged.
pub proof fn lemma_update_all_props(es: Seq<Enemy>, p: Player, dt: Millis)
    requires
        p.wf(),
        dt <= DT_MAX,
        forall|i: int| 0 <= i < es.len() ==> (#[trigger] es[i]).wf(),
    ensures
        ({
            let r = update_all(es, p, dt);
            &&& r.0.len() == es.len()
            &&& forall|i: int| 0 <= i < r.0.len() ==> (#[trigger] r.0[i]).wf()
            &&& r.1.wf()
            &&& r.1.x == p.x
            &&& r.1.y == p.y
            &&& r.1.did_shoot == p.did_shoot
            &&& r.1.facing_left == p.facing_left
        }),
    decreases es.len(),
{
    if es.len() > 0 {
        assert(es[0].wf());
        lemma_enemy_step_wf(es[0], dt, p.x as int, p.y as int);
        lemma_player_hit_wf(p);
        let p1: Player = if enemy_hits_player(es[0], dt) {
            player_hit(p)
        } else {
            p
        };
        assert(forall|i: int|
            0 <= i < es.drop_first().len() ==> (#[trigger] es.drop_first()[i]).wf());
        lemma_update_all_props(es.drop_first(), p1, dt);
    }
}

/// The shot always resolves to the first qualifying enemy in collection
/// order — the scan is deterministic in the collection and the player.
pub proof fn lemma_shot_selects_first(es: Seq<Enemy>, p: Player)
    ensures
        match first_target(es, p) {
            Option::Some(i) => 0 <= i < es.len() && qualifies(es[i], p) && (forall|j: int|
                0 <= j < i ==> !qualifies(#[trigger] es[j], p)),
            Option::None => forall|j: int| 0 <= j < es.len() ==> !qualifies(#[trigger] es[j], p),
        },
    decreases es.len(),
{
    if es.len() > 0 && !qualifies(es[0], p) {
        lemma_shot_selects_first(es.drop_first(), p);
        match first_target(es.drop_first(), p) {
            Option::Some(j) => {
                assert(first_target(es, p) == Option::Some(j + 1));
                assert(es.drop_first()[j] == es[j + 1]);
                assert forall|t: int| 0 <= t < j + 1 implies !qualifies(#[trigger] es[t], p) by {
                    if t >= 1 {
                        assert(es[t] == es.drop_first()[t - 1]);
                    }
                }
            },
            Option::None => {
                assert forall|t: int|
                    0 <= t < es.len() implies !qualifies(#[trigger] es[t], p) by {
                    if t >= 1 {
                        assert(es[t] == es.drop_first()[t - 1]);
                    }
                }
            },
        }
    }
}

/// Unfolding `sweep` from the back.
pub proof fn lemma_sweep_push(es: Seq<Enemy>, e: Enemy, b: Bounds)
    ensures
        sweep(es.push(e), b) == (if keep_enemy(e, b) {
            sweep(es, b).push(e)
        } else {
            sweep(es, b)
        }),
    decreases es.len(),
{
    reveal_with_fuel(sweep, 3);
    if es.len() == 0 {
        assert(es.push(e).drop_first() =~= Seq::<Enemy>::empty());
        assert(es.push(e)[0] == e);
        if keep_enemy(e, b) {
            assert(sweep(es.push(e), b) =~= sweep(es, b).push(e));
        }
    } else {
        assert(es.push(e)[0] == es[0]);
        assert(es.push(e).drop_first() =~= es.drop_first().push(e));
        lemma_sweep_push(es.drop_first(), e, b);
        if keep_enemy(e, b) {
            assert(sweep(es.push(e), b) =~= sweep(es, b).push(e));
        } else {
            assert(sweep(es.push(e), b) =~= sweep(es, b));
        }
    }
}

/// Everything the sweep keeps was well-formed before it.
pub proof fn lemma_sweep_wf(es: Seq<Enemy>, b: Bounds)
    requires
        forall|i: int| 0 <= i < es.len() ==> (#[trigger] es[i]).wf(),
    ensures
        forall|i: int| 0 <= i < sweep(es, b).len() ==> (#[trigger] sweep(es, b)[i]).wf(),
    decreases es.len(),
{
    if es.len() > 0 {
        assert(forall|i: int|
            0 <= i < es.drop_first().len() ==> (#[trigger] es.drop_first()[i]).wf());
        lemma_sweep_wf(es.drop_first(), b);
        let rest = sweep(es.drop_first(), b);
        if keep_enemy(es[0], b) {
            assert(forall|i: int|
                0 <= i < sweep(es, b).len() ==> (#[trigger] sweep(es, b)[i]).wf()) by {
                assert(sweep(es, b) == seq![es[0]] + rest);
                assert(es[0].wf());
            };
        }
    }
}

/// The sweep keeps exactly the live, on-screen enemies: nothing dead and
/// nothing off-screen survives it, whatever its state was.
pub proof fn lemma_sweep_keeps_only_live(es: Seq<Enemy>, b: Bounds)
    ensures
        forall|i: int|
            0 <= i < sweep(es, b).len() ==> keep_enemy(#[trigger] sweep(es, b)[i], b),
    decreases es.len(),
{
    if es.len() > 0 {
        lemma_sweep_keeps_only_live(es.drop_first(), b);
        let rest = sweep(es.drop_first(), b);
        if keep_enemy(es[0], b) {
            assert forall|i: int|
                0 <= i < sweep(es, b).len() implies keep_enemy(#[trigger] sweep(es, b)[i], b) by {
                assert(sweep(es, b) == seq![es[0]] + rest);
                if i >= 1 {
                    assert(sweep(es, b)[i] == rest[i - 1]);
                }
            }
        }
    }
}

/// The whole tick preserves well-formedness of manager and player.
pub proof fn lemma_manager_step_wf(m: ManagerModel, p: Player, dt: Millis, b: Bounds, s: SpawnSample)
    requires
        m.wf(),
        p.wf(),
        b.wf(),
        s.wf(b),
        dt <= DT_MAX,
    ensures
        manager_step(m, p, dt, b, s).0.wf(),
        manager_step(m, p, dt, b, s).1.wf(),
{
    let m2 = maybe_spawn(tick_timers(m, dt), b, s);
    lemma_stage_two_wf(m, dt, b, s);
    let r3 = update_all(m2.enemies, p, dt);
    lemma_update_all_props(m2.enemies, p, dt);
    let r4 = apply_shot(r3.0, r3.1);
    assert(forall|i: int| 0 <= i < r4.0.len() ==> (#[trigger] r4.0[i]).wf()) by {
        lemma_shot_selects_first(r3.0, r3.1);
    };
    lemma_sweep_wf(r4.0, b);
}

/// The fire event is consumed within the tick that observes it: after any
/// manager tick the flag is down, whether or not a target was found.
pub proof fn lemma_fire_flag_consumed(m: ManagerModel, p: Player, dt: Millis, b: Bounds, s: SpawnSample)
    ensures
        manager_step(m, p, dt, b, s).1.did_shoot == false,
{
    let m2 = maybe_spawn(tick_timers(m, dt), b, s);
    lemma_update_all_props_weak(m2.enemies, p, dt);
}

/// `update_all` never raises the fire event (damage does not touch it).
pub proof fn lemma_update_all_props_weak(es: Seq<Enemy>, p: Player, dt: Millis)
    ensures
        update_all(es, p, dt).1.did_shoot == p.did_shoot,
        update_all(es, p, dt).1.x == p.x,
        update_all(es, p, dt).1.y == p.y,
        update_all(es, p, dt).1.facing_left == p.facing_left,
    decreases es.len(),
{
    if es.len() > 0 {
        let p1: Player = if enemy_hits_player(es[0], dt) {
            player_hit(p)
        } else {
            p
        };
        lemma_update_all_props_weak(es.drop_first(), p1, dt);
    }
}

/// Difficulty only escalates: the spawn cooldown never grows and never
/// drops below its floor, and the difficulty level never falls.
pub proof fn lemma_difficulty_monotonic(m: ManagerModel, p: Player, dt: Millis, b: Bounds, s: SpawnSample)
    requires
        m.wf(),
    ensures
        manager_step(m, p, dt, b, s).0.spawn_cooldown <= m.spawn_cooldown,
        manager_step(m, p, dt, b, s).0.spawn_cooldown >= SPAWN_COOLDOWN_MIN,
        manager_step(m, p, dt, b, s).0.difficulty_level >= m.difficulty_level,
{
}

/// The manager driven through a whole sequence of ticks, each with its own
/// delta and spawn draw.
pub open spec fn manager_run(
    m: ManagerModel,
    p: Player,
    ticks: Seq<(Millis, SpawnSample)>,
    b: Bounds,
) -> (ManagerModel, Player)
    decreases ticks.len(),
{
    if ticks.len() == 0 {
        (m, p)
    } else {
        let r = manager_step(m, p, ticks[0].0, b, ticks[0].1);
        manager_run(r.0, r.1, ticks.drop_first(), b)
    }
}

/// Difficulty only escalates over any run: across any sequence of ticks the
/// spawn cooldown never grows, never leaves its floor behind, and the
/// difficulty level never falls.
pub proof fn lemma_difficulty_monotonic_run(
    m: ManagerModel,
    p: Player,
    ticks: Seq<(Millis, SpawnSample)>,
    b: Bounds,
)
    requires
        SPAWN_COOLDOWN_MIN <= m.spawn_cooldown,
    ensures
        manager_run(m, p, ticks, b).0.spawn_cooldown <= m.spawn_cooldown,
        manager_run(m, p, ticks, b).0.spawn_cooldown >= SPAWN_COOLDOWN_MIN,
        manager_run(m, p, ticks, b).0.difficulty_level >= m.difficulty_level,
    decreases ticks.len(),
{
    if ticks.len() > 0 {
        let r = manager_step(m, p, ticks[0].0, b, ticks[0].1);
        lemma_difficulty_monotonic_run(r.0, r.1, ticks.drop_first(), b);
    }
}

/// After the timer and spawn stages every enemy in the collection is still
/// well-formed.
pub proof fn lemma_stage_two_wf(m: ManagerModel, dt: Millis, b: Bounds, s: SpawnSample)
    requires
        m.wf(),
        b.wf(),
        s.wf(b),
    ensures
        ({
            let m2 = maybe_spawn(tick_timers(m, dt), b, s);
            forall|i: int| 0 <= i < m2.enemies.len() ==> (#[trigger] m2.enemies[i]).wf()
        }),
{
    let m1 = tick_timers(m, dt);
    let m2 = maybe_spawn(m1, b, s);
    assert forall|i: int| 0 <= i < m2.enemies.len() implies (#[trigger] m2.enemies[i]).wf() by {
        if m1.spawn_timer >= m1.spawn_cooldown {
            crate::enemy::lemma_spawn_enemy_wf(b, m1.difficulty_level, s);
            assert(m2.enemies == m1.enemies.push(spawn_enemy(b, m1.difficulty_level, s)));
            if i < m1.enemies.len() {
                assert(m2.enemies[i] == m.enemies[i]);
            }
        } else {
            assert(m2.enemies[i] == m.enemies[i]);
        }
    };
}

/// Stage three in executable form: step every enemy in order, threading the
/// player through each possible damage delivery.
fn run_enemy_updates(enemies: &mut Vec<Enemy>, player: &mut Player, dt: Millis)
    requires
        forall|j: int| 0 <= j < old(enemies)@.len() ==> (#[trigger] old(enemies)@[j]).wf(),
        old(player).wf(),
        dt <= DT_MAX,
    ensures
        final(enemies)@ == update_all(old(enemies)@, *old(player), dt).0,
        *final(player) == update_all(old(enemies)@, *old(player), dt).1,
{
    let ghost es0 = enemies@;
    let ghost p0 = *player;
    let mut updated: Vec<Enemy> = Vec::new();
    let mut i: usize = 0;
    let n: usize = enemies.len();
    while i < n
        invariant
            i <= n,
            n == enemies@.len(),
            enemies@ == es0,
            dt <= DT_MAX,
            forall|j: int| 0 <= j < es0.len() ==> (#[trigger] es0[j]).wf(),
            updated@ == update_all(es0.take(i as int), p0, dt).0,
            *player == update_all(es0.take(i as int), p0, dt).1,
            player.wf(),
        decreases n - i,
    {
        let ghost taken = es0.take(i as int);
        let mut e: Enemy = enemies[i];
        let px: i64 = player.x;
        let py: i64 = player.y;
        assert(e.wf());
        e.update(dt, px, py, player);
        updated.push(e);
        proof {
            assert(es0.take(i as int + 1) =~= taken.push(es0[i as int]));
            lemma_update_all_push(taken, es0[i as int], p0, dt);
        }
        i = i + 1;
    }
    proof {
        assert(es0.take(n as int) =~= es0);
    }
    *enemies = updated;
}

/// Stage four in executable form: scan for the first qualifying enemy,
/// kill it, and consume the fire event.
fn resolve_shot(enemies: &mut Vec<Enemy>, player: &mut Player)
    requires
        old(player).wf(),
        forall|j: int| 0 <= j < old(enemies)@.len() ==> (#[trigger] old(enemies)@[j]).wf(),
    ensures
        final(enemies)@ == apply_shot(old(enemies)@, *old(player)).0,
        *final(player) == apply_shot(old(enemies)@, *old(player)).1,
{
    let ghost es3 = enemies@;
    let ghost p3 = *player;
    proof {
        lemma_shot_selects_first(es3, p3);
    }
    if player.did_shoot {
        let len: usize = enemies.len();
        let mut k: usize = 0;
        let mut found: bool = false;
        while k < len && !found
            invariant
                k <= len,
                len == enemies@.len(),
                enemies@ == es3,
                *player == p3,
                p3.wf(),
                forall|j: int| 0 <= j < es3.len() ==> (#[trigger] es3[j]).wf(),
                forall|j: int| 0 <= j < k as int ==> !qualifies(#[trigger] es3[j], p3),
                found ==> k < len && qualifies(es3[k as int], p3),
            decreases len - k, (if found { 0int } else { 1int }),
        {
            let e: Enemy = enemies[k];
            let ddx: i64 = player.x - e.x;
            let in_range_x: bool = ddx <= SHOT_RANGE && ddx >= -SHOT_RANGE;
            let ddy: i64 = player.y - e.y;
            let in_range_y: bool = (if ddy >= 0 { ddy } else { -ddy }) < SHOT_BAND;
            let facing_ok: bool = player.facing_left == (e.x < player.x);
            let active: bool = e.state == EnemyState::Alive || e.state == EnemyState::Attacking;
            if active && in_range_x && in_range_y && facing_ok {
                found = true;
            } else {
                k = k + 1;
            }
        }
        if found {
            let mut e: Enemy = enemies[k];
            e.state = EnemyState::Dying;
            e.frame = 0;
            e.frame_timer = 0;
            enemies.set(k, e);
            proof {
                assert(first_target(es3, p3) == Option::Some(k as int));
                assert(enemies@ =~= es3.update(k as int, kill_enemy(es3[k as int])));
            }
        } else {
            proof {
                assert(first_target(es3, p3) is None);
            }
        }
        player.did_shoot = false;
    }
}

/// Stage five in executable form: rebuild the collection without dead or
/// off-screen enemies.
fn sweep_enemies(enemies: &mut Vec<Enemy>, b: Bounds)
    requires
        b.wf(),
    ensures
        final(enemies)@ == sweep(old(enemies)@, b),
{
    let ghost es4 = enemies@;
    let mut kept: Vec<Enemy> = Vec::new();
    let mut t: usize = 0;
    let len2: usize = enemies.len();
    while t < len2
        invariant
            t <= len2,
            len2 == enemies@.len(),
            enemies@ == es4,
            b.wf(),
            kept@ == sweep(es4.take(t as int), b),
        decreases len2 - t,
    {
        let ghost taken = es4.take(t as int);
        let e: Enemy = enemies[t];
        if e.state != EnemyState::Dead && !e.is_off_screen(b) {
            kept.push(e);
        }
        proof {
            assert(es4.take(t as int + 1) =~= taken.push(es4[t as int]));
            lemma_sweep_push(taken, es4[t as int], b);
        }
        t = t + 1;
    }
    proof {
        assert(es4.take(len2 as int) =~= es4);
    }
    *enemies = kept;
}

impl EnemyManager {
    pub fn new() -> (m: EnemyManager)
        ensures
            m@ == ManagerModel::init_spec(),
            m@.wf(),
    {
        let m = EnemyManager {
            enemies: Vec::new(),
            spawn_timer: 0,
            spawn_cooldown: SPAWN_COOLDOWN_START,
            difficulty_timer: 0,
            difficulty_level: 1,
        };
        proof {
            assert(m@ =~= ManagerModel::init_spec());
        }
        m
    }

    /// Clear the collection and return spawn and difficulty state to their
    /// initial values; invoked on player restart.
    pub fn reset(&mut self)
        ensures
            final(self)@ == ManagerModel::init_spec(),
            final(self)@.wf(),
    {
        self.enemies = Vec::new();
        self.difficulty_level = 1;
        self.difficulty_timer = 0;
        self.spawn_timer = 0;
        self.spawn_cooldown = SPAWN_COOLDOWN_START;
        proof {
            assert(self@ =~= ManagerModel::init_spec());
        }
    }

    /// One manager tick with the spawn draws passed in explicitly; the
    /// result is exactly [`manager_step`] of them.
    pub fn update_with(&mut self, dt: Millis, player: &mut Player, b: Bounds, s: SpawnSample)
        requires
            old(self)@.wf(),
            old(player).wf(),
            b.wf(),
            s.wf(b),
            dt <= DT_MAX,
        ensures
            final(self)@ == manager_step(old(self)@, *old(player), dt, b, s).0,
            *final(player) == manager_step(old(self)@, *old(player), dt, b, s).1,
            final(self)@.wf(),
            final(player).wf(),
    {
        proof {
            lemma_manager_step_wf(old(self)@, *old(player), dt, b, s);
        }
        let ghost m0 = self@;
        self.spawn_timer = self.spawn_timer + dt;
        self.difficulty_timer = self.difficulty_timer + dt;
        if self.difficulty_timer >= DIFFICULTY_STEP_MS {
            if self.difficulty_level < u32::MAX {
                self.difficulty_level = self.difficulty_level + 1;
            }
            self.difficulty_timer = 0;
            let cd: u32 = self.spawn_cooldown * 9 / 10;
            self.spawn_cooldown = if cd < SPAWN_COOLDOWN_MIN {
                SPAWN_COOLDOWN_MIN
            } else {
                cd
            };
        }
        proof {
            assert(self@ =~= tick_timers(m0, dt));
        }
        let ghost m1 = self@;
        if self.spawn_timer >= self.spawn_cooldown {
            let e = Enemy::from_sample(b, self.difficulty_level, s);
            self.enemies.push(e);
            self.spawn_timer = 0;
        }
        proof {
            assert(self@ =~= maybe_spawn(m1, b, s));
        }
        let ghost m2 = self@;
        let ghost p0 = *player;
        proof {
            lemma_stage_two_wf(m0, dt, b, s);
            lemma_update_all_props(m2.enemies, p0, dt);
        }
        run_enemy_updates(&mut self.enemies, player, dt);
        resolve_shot(&mut self.enemies, player);
        sweep_enemies(&mut self.enemies, b);
        proof {
            assert(self@ =~= manager_step(m0, p0, dt, b, s).0);
        }
    }

    /// One manager tick as the driver calls it: the spawn values are drawn
    /// inside, so the result is [`manager_step`] for some well-formed draw.
    pub fn update(&mut self, dt: Millis, player: &mut Player, b: Bounds)
        requires
            old(self)@.wf(),
            old(player).wf(),
            b.wf(),
            dt <= DT_MAX,
        ensures
            exists|s: SpawnSample|
                #[trigger] s.wf(b) && final(self)@ == manager_step(old(self)@, *old(player), dt, b, s).0
                    && *final(player) == manager_step(old(self)@, *old(player), dt, b, s).1,
            final(self)@.wf(),
            final(player).wf(),
            final(player).did_shoot == false,
            final(self)@.spawn_cooldown <= old(self)@.spawn_cooldown,
            final(self)@.spawn_cooldown >= SPAWN_COOLDOWN_MIN,
            final(self)@.difficulty_level >= old(self)@.difficulty_level,
    {
        let s = sample_spawn(b);
        self.update_with(dt, player, b, s);
        proof {
            lemma_fire_flag_consumed(old(self)@, *old(player), dt, b, s);
            lemma_difficulty_monotonic(old(self)@, *old(player), dt, b, s);
            assert(s.wf(b) && self@ == manager_step(old(self)@, *old(player), dt, b, s).0
                && *player == manager_step(old(self)@, *old(player), dt, b, s).1);
        }
    }
}

} // verus!
