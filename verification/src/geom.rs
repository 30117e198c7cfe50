//! Fixed-point scale, world limits, and exact Euclidean range tests.
//!
//! Distances are only ever compared against thresholds, and comparing
//! squared distances is equivalent to comparing the distances themselves,
//! so no square root is needed and every range test is exact.

use vstd::prelude::*;

verus! {

/// Number of stored milli-units in one world unit.
pub const MILLI: i64 = 1000;

/// Largest world width or height, in milli-units (one billion world units).
pub const WORLD_MAX: i64 = 1_000_000_000_000;

/// Largest drive speed, in milli-units per time unit.
pub const SPEED_MAX: i64 = 1_000_000;

/// Largest elapsed time handed to one tick, in milli-time-units.
pub const ELAPSED_MAX: i64 = 1_000_000_000;

/// Largest damage amount carried by a damage event, in milli-units.
pub const DAMAGE_MAX: i64 = 1_000_000_000_000_000;

/// Largest build progress target carried by a build event.
pub const PROGRESS_MAX: i64 = 1_000_000_000_000_000;

/// Squared Euclidean distance between two points.
pub open spec fn dist_sq(x1: int, y1: int, x2: int, y2: int) -> int {
    (x1 - x2) * (x1 - x2) + (y1 - y2) * (y1 - y2)
}

/// A point lies inside the world rectangle (both borders inclusive).
pub open spec fn in_world(x: int, y: int, w: int, h: int) -> bool {
    0 <= x <= w && 0 <= y <= h
}

/// Length of one movement or construction step: speed times elapsed time,
/// scaled back from milli times milli to milli.
pub open spec fn step_len(speed: int, elapsed: int) -> int {
    speed * elapsed / (MILLI as int)
}

/// Decides `dist(p1, p2) <= limit` exactly, by comparing squares in `i128`.
pub fn within_range(x1: i64, y1: i64, x2: i64, y2: i64, limit: i64) -> (b: bool)
    requires
        -WORLD_MAX <= x1 <= WORLD_MAX,
        -WORLD_MAX <= y1 <= WORLD_MAX,
        -WORLD_MAX <= x2 <= WORLD_MAX,
        -WORLD_MAX <= y2 <= WORLD_MAX,
        -WORLD_MAX <= limit <= WORLD_MAX,
    ensures
        b == (dist_sq(x1 as int, y1 as int, x2 as int, y2 as int) <= limit * limit),
{
    let dx: i128 = x1 as i128 - x2 as i128;
    let dy: i128 = y1 as i128 - y2 as i128;
    let lim: i128 = limit as i128;
    proof {
        assert(0 <= dx * dx <= 4_000_000_000_000_000_000_000_000 && 0 <= dy * dy
            <= 4_000_000_000_000_000_000_000_000 && 0 <= lim * lim
            <= 4_000_000_000_000_000_000_000_000) by (nonlinear_arith)
            requires
                -2_000_000_000_000 <= dx <= 2_000_000_000_000,
                -2_000_000_000_000 <= dy <= 2_000_000_000_000,
                -2_000_000_000_000 <= lim <= 2_000_000_000_000,
        ;
    }
    dx * dx + dy * dy <= lim * lim
}

/// Computes one step length from a drive speed and an elapsed time.
pub fn step_length(speed: i64, elapsed: i64) -> (s: i64)
    requires
        0 <= speed <= SPEED_MAX,
        0 <= elapsed <= ELAPSED_MAX,
    ensures
        s == step_len(speed as int, elapsed as int),
        0 <= s <= WORLD_MAX,
{
    proof {
        assert(0 <= speed * elapsed <= SPEED_MAX * ELAPSED_MAX) by (nonlinear_arith)
            requires
                0 <= speed <= SPEED_MAX,
                0 <= elapsed <= ELAPSED_MAX,
        ;
    }
    speed * elapsed / MILLI
}

/// Clamps a coordinate into `[0, hi]`.
pub open spec fn clamped(v: int, hi: int) -> int {
    if v < 0 {
        0
    } else if v > hi {
        hi
    } else {
        v
    }
}

/// One axis of the greedy movement step: move `step` toward `dest`,
/// then stay inside `[0, hi]`. Positions never leave the world rectangle.
pub open spec fn axis_step(pos: int, dest: int, step: int, hi: int) -> int {
    if pos < dest {
        clamped(pos + step, hi)
    } else if pos > dest {
        clamped(pos - step, hi)
    } else {
        pos
    }
}

} // verus!
