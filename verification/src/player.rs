//! The player state machine: movement, shooting, recharging, the hit-flash
//! window, and death. Each tick is one call of [`Player::update`]; damage
//! arrives through [`Player::hit`]. The transition relation is written out
//! as spec functions, and `update`/`hit` are proved to compute exactly them.

use vstd::prelude::*;

use crate::geometry::clamp_i64;
use crate::geometry::clamp_val;
use crate::Bounds;
use crate::Input;
use crate::Millis;
use crate::DT_MAX;
use crate::FRAME_STEP_MS;
use crate::MAX_DIM;

verus! {

/// Movement speed while walking, in milliunits per second (300 px/s).
pub const WALK_SPEED: i64 = 300_000;

/// Movement speed while sprinting, in milliunits per second (500 px/s).
pub const RUN_SPEED: i64 = 500_000;

/// Lowest clamped x: 90% of the 64 px sprite may hang off the left edge.
pub const PLAYER_X_MIN: i64 = -57_600;

/// Distance kept from the right edge: 160% of the 64 px sprite width.
pub const PLAYER_X_MARGIN: i64 = 102_400;

/// Vertical clamp offset: 250% of the sprite height.
pub const PLAYER_Y_MARGIN: i64 = 160_000;

/// How far above the ground line the player starts (50 px).
pub const PLAYER_START_RAISE: i64 = 50_000;

/// How long the hit flash lasts (0.5 s).
pub const HIT_FLASH_MS: u32 = 500;

pub const MAX_HEALTH: i32 = 100;

/// Health lost per enemy hit.
pub const HIT_DAMAGE: i32 = 10;

/// Ammunition capacity of one magazine.
pub const MAGAZINE: u32 = 12;

/// Frame of the shot cycle on which the shot takes effect.
pub const SHOT_EFFECT_FRAME: u32 = 2;

/// Frame count of the shot cycle.
pub const SHOT_FRAMES: u32 = 4;

/// Frame count of the recharge cycle.
pub const RECHARGE_FRAMES: u32 = 13;

/// Frame count of the death animation.
pub const DEATH_FRAMES: u32 = 4;

/// Score awarded when a shot takes effect.
pub const SCORE_PER_SHOT: u64 = 10;

/// The player's behavior state; exactly one holds at any tick boundary.
#[derive(Clone, Copy, PartialEq, Eq, Structural, Debug)]
pub enum AnimationState {
    Idle,
    Walking,
    Running,
    Shooting,
    Recharging,
    Dying,
}

/// Number of animation frames of each behavior state.
pub open spec fn frames_of(s: AnimationState) -> int {
    match s {
        AnimationState::Idle => 7,
        AnimationState::Walking => 7,
        AnimationState::Running => 8,
        AnimationState::Shooting => 4,
        AnimationState::Recharging => 13,
        AnimationState::Dying => 4,
    }
}

#[derive(Clone, Copy, PartialEq, Eq, Structural, Debug)]
pub struct Player {
    /// Position in milliunits.
    pub x: i64,
    pub y: i64,
    /// Current movement speed, milliunits per second.
    pub speed: i64,
    pub frame: u32,
    /// Time accumulated since the last frame advance, in milliseconds.
    pub frame_timer: u32,
    pub state: AnimationState,
    pub facing_left: bool,
    pub is_recharging: bool,
    /// Ammunition remaining in the magazine.
    pub shots_fired: u32,
    pub is_shooting: bool,
    /// One-shot fire event, consumed by the enemy manager within the tick.
    pub did_shoot: bool,
    pub is_hit: bool,
    /// Time accumulated since the hit flash began, in milliseconds.
    pub hit_timer: u32,
    pub health: i32,
    pub is_dead: bool,
    pub show_death_menu: bool,
    pub score: u64,
}

impl Player {
    /// Well-formedness at tick boundaries: constructors establish it, and
    /// `update` and `hit` preserve it.
    pub open spec fn wf(self) -> bool {
        &&& PLAYER_X_MIN <= self.x <= MAX_DIM
        &&& 0 <= self.y <= MAX_DIM
        &&& (self.speed == WALK_SPEED || self.speed == RUN_SPEED)
        &&& self.frame <= 12
        &&& self.frame_timer <= FRAME_STEP_MS
        &&& self.hit_timer <= HIT_FLASH_MS
        &&& (!self.is_hit ==> self.hit_timer == 0)
        &&& 0 <= self.health <= MAX_HEALTH
        &&& self.health % HIT_DAMAGE == 0
        &&& (self.is_dead ==> self.health == 0 && self.state == AnimationState::Dying)
        &&& (!self.is_dead ==> self.health >= HIT_DAMAGE)
        &&& self.shots_fired <= MAGAZINE
        &&& (!self.is_dead ==> (self.is_shooting <==> self.state == AnimationState::Shooting))
        &&& (!self.is_dead ==> (self.is_recharging <==> self.state == AnimationState::Recharging))
        &&& (self.is_shooting ==> self.shots_fired >= 1)
    }

    /// The freshly constructed player: centered horizontally, standing just
    /// above the ground line, full health and a full magazine.
    pub open spec fn init_spec(b: Bounds) -> Player {
        Player {
            x: (b.width / 2) as i64,
            y: (b.height * 4 / 5 - PLAYER_START_RAISE) as i64,
            speed: WALK_SPEED,
            frame: 0,
            frame_timer: 0,
            state: AnimationState::Idle,
            facing_left: false,
            is_recharging: false,
            shots_fired: MAGAZINE,
            is_shooting: false,
            did_shoot: false,
            is_hit: false,
            hit_timer: 0,
            health: MAX_HEALTH,
            is_dead: false,
            show_death_menu: false,
            score: 0,
        }
    }

    pub fn new(b: Bounds) -> (p: Player)
        requires
            b.wf(),
        ensures
            p == Player::init_spec(b),
            p.wf(),
    {
        Player {
            x: b.width / 2,
            y: b.height * 4 / 5 - PLAYER_START_RAISE,
            speed: WALK_SPEED,
            frame: 0,
            frame_timer: 0,
            state: AnimationState::Idle,
            facing_left: false,
            is_recharging: false,
            shots_fired: MAGAZINE,
            is_shooting: false,
            did_shoot: false,
            is_hit: false,
            hit_timer: 0,
            health: MAX_HEALTH,
            is_dead: false,
            show_death_menu: false,
            score: 0,
        }
    }
}

/// Death animation: the frame advances on the fixed cadence, clamps to the
/// last frame, and completing the animation reveals the death prompt.
pub open spec fn step_dying(p: Player, dt: Millis) -> Player {
    let t: int = p.frame_timer + dt;
    if t > FRAME_STEP_MS {
        let f: int = p.frame + 1;
        if f >= DEATH_FRAMES {
            Player { frame: (DEATH_FRAMES - 1) as u32, frame_timer: 0, show_death_menu: true, ..p }
        } else {
            Player { frame: f as u32, frame_timer: 0, ..p }
        }
    } else {
        Player { frame_timer: t as u32, ..p }
    }
}

/// Entering the shot cycle: fire held, ammunition left, not recharging and
/// not already mid-cycle.
pub open spec fn trigger_shoot(p: Player, input: Input) -> Player {
    if input.fire && p.shots_fired > 0 && !p.is_recharging && !p.is_shooting {
        Player {
            state: AnimationState::Shooting,
            frame: 0,
            frame_timer: 0,
            is_shooting: true,
            ..p
        }
    } else {
        p
    }
}

/// One tick of the shot cycle: the effect frame raises the fire event and
/// scores; the final frame spends a round and either chains into a fresh
/// cycle (fire still held, ammunition left) or returns to idle.
pub open spec fn step_shooting(p: Player, input: Input, dt: Millis) -> Player {
    let t: int = p.frame_timer + dt;
    if t > FRAME_STEP_MS {
        let f: int = p.frame + 1;
        let fired: bool = f == SHOT_EFFECT_FRAME;
        let sc: int = if fired {
            if p.score + SCORE_PER_SHOT <= u64::MAX {
                p.score + SCORE_PER_SHOT
            } else {
                u64::MAX as int
            }
        } else {
            p.score as int
        };
        if f >= SHOT_FRAMES {
            let ammo: int = p.shots_fired - 1;
            if ammo > 0 && input.fire {
                Player {
                    frame: 0,
                    frame_timer: 0,
                    did_shoot: fired,
                    score: sc as u64,
                    shots_fired: ammo as u32,
                    ..p
                }
            } else {
                Player {
                    frame: 0,
                    frame_timer: 0,
                    did_shoot: fired,
                    score: sc as u64,
                    shots_fired: ammo as u32,
                    state: AnimationState::Idle,
                    is_shooting: false,
                    ..p
                }
            }
        } else {
            Player { frame: f as u32, frame_timer: 0, did_shoot: fired, score: sc as u64, ..p }
        }
    } else {
        Player { frame_timer: t as u32, ..p }
    }
}

/// Entering the recharge cycle: explicit reload, or fire held on an empty
/// magazine.
pub open spec fn trigger_recharge(p: Player, input: Input) -> Player {
    if (input.reload || (input.fire && p.shots_fired == 0)) && !p.is_recharging {
        Player {
            is_recharging: true,
            state: AnimationState::Recharging,
            frame: 0,
            frame_timer: 0,
            ..p
        }
    } else {
        p
    }
}

/// One tick of the recharge cycle; completing it refills the magazine.
pub open spec fn step_recharging(p: Player, dt: Millis) -> Player {
    let t: int = p.frame_timer + dt;
    if t > FRAME_STEP_MS {
        let f: int = p.frame + 1;
        if f >= RECHARGE_FRAMES {
            Player {
                is_recharging: false,
                shots_fired: MAGAZINE,
                state: AnimationState::Idle,
                frame: 0,
                frame_timer: 0,
                ..p
            }
        } else {
            Player { frame: f as u32, frame_timer: 0, ..p }
        }
    } else {
        Player { frame_timer: t as u32, ..p }
    }
}

/// Movement tick: directional input moves the player at the previous tick's
/// speed, the sprint modifier picks next tick's speed, the position is
/// clamped to the play area and the ground band, the hit flash decays, and
/// the walk/run/idle animation wraps on its cadence.
pub open spec fn step_movement(p: Player, input: Input, dt: Millis, b: Bounds) -> Player {
    let step: int = p.speed * dt / 1000;
    let moving: bool = input.left || input.right || input.up || input.down;
    let x1: int = p.x - (if input.left { step } else { 0 }) + (if input.right { step } else { 0 });
    let y1: int = p.y - (if input.up { step } else { 0 }) + (if input.down { step } else { 0 });
    let facing: bool = if input.right { false } else if input.left { true } else { p.facing_left };
    let speed2: i64 = if input.sprint { RUN_SPEED } else { WALK_SPEED };
    let state2: AnimationState = if input.sprint && moving {
        AnimationState::Running
    } else if moving {
        AnimationState::Walking
    } else {
        AnimationState::Idle
    };
    let x2: int = clamp_val(x1, PLAYER_X_MIN as int, b.width - PLAYER_X_MARGIN);
    let y2: int = clamp_val(y1, b.ground_level() - PLAYER_Y_MARGIN, b.height - PLAYER_Y_MARGIN);
    let ht: int = p.hit_timer + dt;
    let flash_over: bool = p.is_hit && ht > HIT_FLASH_MS;
    let is_hit2: bool = if flash_over { false } else { p.is_hit };
    let ht2: int = if p.is_hit { if flash_over { 0 } else { ht } } else { p.hit_timer as int };
    let ft: int = p.frame_timer + dt;
    let advance: bool = ft > FRAME_STEP_MS;
    let frame2: int = if advance { (p.frame + 1) % frames_of(state2) } else { p.frame as int };
    let ft2: int = if advance { 0 } else { ft };
    Player {
        x: x2 as i64,
        y: y2 as i64,
        speed: speed2,
        facing_left: facing,
        state: state2,
        is_hit: is_hit2,
        hit_timer: ht2 as u32,
        frame: frame2 as u32,
        frame_timer: ft2 as u32,
        ..p
    }
}

/// The whole per-tick transition, branches tried in strict priority order:
/// dying, shooting, recharging, movement.
pub open spec fn player_step(p: Player, input: Input, dt: Millis, b: Bounds) -> Player {
    if p.is_dead {
        step_dying(p, dt)
    } else {
        let p1 = trigger_shoot(p, input);
        if p1.is_shooting {
            step_shooting(p1, input, dt)
        } else {
            let p2 = trigger_recharge(p1, input);
            if p2.is_recharging {
                step_recharging(p2, dt)
            } else {
                step_movement(p2, input, dt, b)
            }
        }
    }
}

/// Death transition: triggered once when health is exhausted.
pub open spec fn die_step(p: Player) -> Player {
    if !p.is_dead {
        Player {
            is_dead: true,
            frame: 0,
            frame_timer: 0,
            state: AnimationState::Dying,
            show_death_menu: false,
            ..p
        }
    } else {
        p
    }
}

/// Damage transition: a no-op while the hit flash is up or after death;
/// otherwise starts the flash and deducts fixed damage, touching nothing of
/// the animation state — only a lethal hit triggers death, whose transition
/// restarts the frame cycle for the death animation.
pub open spec fn player_hit(p: Player) -> Player {
    if !p.is_hit && !p.is_dead {
        let p1 = Player { is_hit: true, health: (p.health - HIT_DAMAGE) as i32, ..p };
        if p1.health <= 0 {
            die_step(p1)
        } else {
            p1
        }
    } else {
        p
    }
}

impl Player {
    fn update_dying(&mut self, dt: Millis)
        requires
            old(self).frame_timer <= FRAME_STEP_MS,
            old(self).frame <= 12,
            dt <= DT_MAX,
        ensures
            *final(self) == step_dying(*old(self), dt),
    {
        self.frame_timer = self.frame_timer + dt;
        if self.frame_timer > FRAME_STEP_MS {
            self.frame = self.frame + 1;
            self.frame_timer = 0;
            if self.frame >= DEATH_FRAMES {
                self.show_death_menu = true;
                self.frame = DEATH_FRAMES - 1;
            }
        }
    }

    fn update_shooting(&mut self, input: Input, dt: Millis)
        requires
            old(self).frame_timer <= FRAME_STEP_MS,
            old(self).frame <= 12,
            old(self).shots_fired >= 1,
            dt <= DT_MAX,
        ensures
            *final(self) == step_shooting(*old(self), input, dt),
    {
        self.frame_timer = self.frame_timer + dt;
        if self.frame_timer > FRAME_STEP_MS {
            self.frame = self.frame + 1;
            self.frame_timer = 0;
            if self.frame == SHOT_EFFECT_FRAME {
                self.did_shoot = true;
                self.score = if self.score <= u64::MAX - SCORE_PER_SHOT {
                    self.score + SCORE_PER_SHOT
                } else {
                    u64::MAX
                };
            } else {
                self.did_shoot = false;
            }
            if self.frame >= SHOT_FRAMES {
                self.shots_fired = self.shots_fired - 1;
                if self.shots_fired > 0 && input.fire {
                    self.frame = 0;
                } else {
                    self.state = AnimationState::Idle;
                    self.frame = 0;
                    self.is_shooting = false;
                }
            }
        }
    }

    fn update_recharging(&mut self, dt: Millis)
        requires
            old(self).frame_timer <= FRAME_STEP_MS,
            old(self).frame <= 12,
            dt <= DT_MAX,
        ensures
            *final(self) == step_recharging(*old(self), dt),
    {
        self.frame_timer = self.frame_timer + dt;
        if self.frame_timer > FRAME_STEP_MS {
            self.frame = self.frame + 1;
            self.frame_timer = 0;
            if self.frame >= RECHARGE_FRAMES {
                self.is_recharging = false;
                self.shots_fired = MAGAZINE;
                self.state = AnimationState::Idle;
                self.frame = 0;
            }
        }
    }

    #[verifier::rlimit(60)]
    fn update_movement(&mut self, input: Input, dt: Millis, b: Bounds)
        requires
            old(self).wf(),
            b.wf(),
            dt <= DT_MAX,
        ensures
            *final(self) == step_movement(*old(self), input, dt, b),
    {
        assert(self.speed * (dt as i64) <= RUN_SPEED * (DT_MAX as i64)) by (nonlinear_arith)
            requires
                (self.speed == WALK_SPEED || self.speed == RUN_SPEED) && 0 <= dt <= DT_MAX,
        ;
        let step: i64 = self.speed * (dt as i64) / 1000;
        let mut moving: bool = false;
        let mut running: bool = false;
        if input.left {
            self.x = self.x - step;
            moving = true;
            self.facing_left = true;
        }
        if input.right {
            self.x = self.x + step;
            moving = true;
            self.facing_left = false;
        }
        if input.up {
            self.y = self.y - step;
            moving = true;
        }
        if input.down {
            self.y = self.y + step;
            moving = true;
        }
        if input.sprint {
            self.speed = RUN_SPEED;
            running = true;
        } else {
            self.speed = WALK_SPEED;
        }
        self.state = if running && moving {
            AnimationState::Running
        } else if moving {
            AnimationState::Walking
        } else {
            AnimationState::Idle
        };
        self.x = clamp_i64(self.x, PLAYER_X_MIN, b.width - PLAYER_X_MARGIN);
        let ground: i64 = b.height * 4 / 5;
        self.y = clamp_i64(self.y, ground - PLAYER_Y_MARGIN, b.height - PLAYER_Y_MARGIN);
        if self.is_hit {
            self.hit_timer = self.hit_timer + dt;
            if self.hit_timer > HIT_FLASH_MS {
                self.is_hit = false;
                self.hit_timer = 0;
            }
        }
        self.frame_timer = self.frame_timer + dt;
        if self.frame_timer > FRAME_STEP_MS {
            self.frame = (self.frame + 1) % match self.state {
                AnimationState::Idle => 7,
                AnimationState::Walking => 7,
                AnimationState::Running => 8,
                AnimationState::Shooting => 4,
                AnimationState::Recharging => 13,
                AnimationState::Dying => 4,
            };
            self.frame_timer = 0;
        }
    }

    /// One simulation tick of the player.
    pub fn update(&mut self, input: Input, dt: Millis, b: Bounds)
        requires
            old(self).wf(),
            b.wf(),
            dt <= DT_MAX,
        ensures
            *final(self) == player_step(*old(self), input, dt, b),
            final(self).wf(),
    {
        proof {
            lemma_player_step_wf(*old(self), input, dt, b);
        }
        if self.is_dead {
            self.update_dying(dt);
            return;
        }
        if input.fire && self.shots_fired > 0 && !self.is_recharging {
            if !self.is_shooting {
                self.state = AnimationState::Shooting;
                self.frame = 0;
                self.frame_timer = 0;
                self.is_shooting = true;
            }
        }
        if self.is_shooting {
            self.update_shooting(input, dt);
            return;
        }
        if (input.reload || (input.fire && self.shots_fired == 0)) && !self.is_recharging {
            self.is_recharging = true;
            self.state = AnimationState::Recharging;
            self.frame = 0;
            self.frame_timer = 0;
        }
        if self.is_recharging {
            self.update_recharging(dt);
            return;
        }
        self.update_movement(input, dt, b);
    }

    /// Damage entry point, invoked by the enemy manager.
    pub fn hit(&mut self)
        requires
            old(self).wf(),
        ensures
            *final(self) == player_hit(*old(self)),
            final(self).wf(),
    {
        if !self.is_hit && !self.is_dead {
            self.is_hit = true;
            self.health = self.health - HIT_DAMAGE;
            if self.health <= 0 {
                self.die();
            }
        }
    }

    fn die(&mut self)
        ensures
            *final(self) == die_step(*old(self)),
    {
        if !self.is_dead {
            self.is_dead = true;
            self.frame = 0;
            self.frame_timer = 0;
            self.state = AnimationState::Dying;
            self.show_death_menu = false;
        }
    }
}

/// Anything the outside world can do to a player between two tick
/// boundaries: one simulation tick, or one damage delivery.
pub enum PlayerEvent {
    Tick(Input, Millis),
    Damage,
}

/// A player driven through a whole sequence of ticks and damage deliveries.
pub open spec fn player_run(p: Player, evs: Seq<PlayerEvent>, b: Bounds) -> Player
    decreases evs.len(),
{
    if evs.len() == 0 {
        p
    } else {
        let p1 = match evs[0] {
            PlayerEvent::Tick(input, dt) => player_step(p, input, dt, b),
            PlayerEvent::Damage => player_hit(p),
        };
        player_run(p1, evs.drop_first(), b)
    }
}

/// Exactly one behavior state holds at any tick boundary.
pub proof fn lemma_player_state_exclusive(p: Player)
    ensures
        (if p.state == AnimationState::Idle { 1int } else { 0int })
        + (if p.state == AnimationState::Walking { 1int } else { 0int })
        + (if p.state == AnimationState::Running { 1int } else { 0int })
        + (if p.state == AnimationState::Shooting { 1int } else { 0int })
        + (if p.state == AnimationState::Recharging { 1int } else { 0int })
        + (if p.state == AnimationState::Dying { 1int } else { 0int }) == 1,
{
}

/// Death is terminal: once `is_dead` holds, no sequence of ticks or damage
/// deliveries changes health, ammunition, position or score, and the player
/// stays dead in the dying state.
pub proof fn lemma_death_is_terminal(p: Player, evs: Seq<PlayerEvent>, b: Bounds)
    requires
        p.is_dead,
        p.state == AnimationState::Dying,
    ensures
        player_run(p, evs, b).is_dead,
        player_run(p, evs, b).state == AnimationState::Dying,
        player_run(p, evs, b).health == p.health,
        player_run(p, evs, b).shots_fired == p.shots_fired,
        player_run(p, evs, b).x == p.x,
        player_run(p, evs, b).y == p.y,
        player_run(p, evs, b).score == p.score,
    decreases evs.len(),
{
    if evs.len() > 0 {
        let p1 = match evs[0] {
            PlayerEvent::Tick(input, dt) => player_step(p, input, dt, b),
            PlayerEvent::Damage => player_hit(p),
        };
        lemma_death_is_terminal(p1, evs.drop_first(), b);
    }
}

/// The per-tick transition preserves well-formedness.
pub proof fn lemma_player_step_wf(p: Player, input: Input, dt: Millis, b: Bounds)
    requires
        p.wf(),
        b.wf(),
        dt <= DT_MAX,
    ensures
        player_step(p, input, dt, b).wf(),
{
}

/// The damage transition preserves well-formedness.
pub proof fn lemma_player_hit_wf(p: Player)
    requires
        p.wf(),
    ensures
        player_hit(p).wf(),
{
}

} // verus!
