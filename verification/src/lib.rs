//! Gameplay simulation core for a 2D arcade shooter: the player and enemy
//! animation/behavior state machines, the spawn/difficulty controller, and
//! the combat resolution pass that ties them together.
//!
//! All world coordinates are integers in milliunits (one thousandth of a
//! pixel), speeds are milliunits per second, and elapsed time is counted in
//! milliseconds. The driver (rendering, input polling, audio) lives outside
//! this crate and hands in plain values each tick.

use vstd::prelude::*;

pub mod enemy;
pub mod geometry;
pub mod manager;
pub mod player;
pub mod rng;

verus! {

/// Elapsed simulation time per tick, in milliseconds.
pub type Millis = u32;

/// Largest per-tick delta the fixed-point arithmetic is sized for (10 s).
pub const DT_MAX: u32 = 10_000;

/// Interval after which an animation frame advances (0.1 s cadence).
pub const FRAME_STEP_MS: u32 = 100;

/// Largest play-area dimension the fixed-point arithmetic is sized for
/// (100,000 pixels).
pub const MAX_DIM: i64 = 100_000_000;

/// Smallest play-area width that keeps the player's horizontal clamp band
/// non-empty and the initial position inside it (204.8 pixels).
pub const MIN_WIDTH: i64 = 204_800;

/// Smallest play-area height that keeps the ground band and the player's
/// vertical clamp band non-empty (550 pixels).
pub const MIN_HEIGHT: i64 = 550_000;

/// Play-area dimensions in milliunits, queried from the window each tick;
/// they may change between ticks (e.g. on resize).
#[derive(Clone, Copy, PartialEq, Eq, Structural, Debug)]
pub struct Bounds {
    pub width: i64,
    pub height: i64,
}

impl Bounds {
    pub open spec fn wf(self) -> bool {
        &&& MIN_WIDTH <= self.width <= MAX_DIM
        &&& MIN_HEIGHT <= self.height <= MAX_DIM
    }

    /// Vertical position of the ground line: 80% of the play-area height.
    pub open spec fn ground_level(self) -> int {
        self.height * 4 / 5
    }
}

/// Input signals sampled once per tick: held movement keys, the sprint
/// modifier, the fire key (held) and the reload key (pressed this tick).
#[derive(Clone, Copy, PartialEq, Eq, Structural, Debug)]
pub struct Input {
    pub left: bool,
    pub right: bool,
    pub up: bool,
    pub down: bool,
    pub sprint: bool,
    pub fire: bool,
    pub reload: bool,
}

impl Input {
    /// No key held or pressed this tick.
    pub fn none() -> (i: Input)
        ensures
            i == (Input {
                left: false,
                right: false,
                up: false,
                down: false,
                sprint: false,
                fire: false,
                reload: false,
            }),
    {
        Input {
            left: false,
            right: false,
            up: false,
            down: false,
            sprint: false,
            fire: false,
            reload: false,
        }
    }
}

} // verus!
