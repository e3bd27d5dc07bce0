//! Cross-iteration memory of the tracking loop.
//!
//! Each tracking iteration runs one bounded grid search, then adapts its
//! own schedule from what the search observed: the grid size per axis
//! shrinks toward a configured minimum while that axis barely moves and
//! grows back toward the maximum while it drifts, the sleep interval
//! shortens when the search touched a window border and lengthens when
//! it stayed interior, a per-axis direction hypothesis follows the sign
//! of the latest drift, and a no-motion counter feeds the stop rule:
//! tracking stops only when the platform has been still for a configured
//! number of iterations *and* brightness has fallen under the sunset
//! threshold — stillness alone never stops it.

use vstd::prelude::*;

verus! {

/// Per-axis belief about where the tracked light source is drifting.
/// "Increasing" means toward larger angles (the "left" direction of the
/// axis convention).
#[derive(Clone, Copy, Debug, PartialEq, Eq, Structural)]
pub enum Direction {
    Unknown,
    Increasing,
    Decreasing,
}

/// Fixed configuration of a tracking session.
#[derive(Clone, Copy, Debug)]
pub struct TrackingConfig {
    /// Smallest grid size an axis may shrink to (odd, at least 1).
    pub grid_min: i32,
    /// Largest grid size an axis may grow to (odd).
    pub grid_max: i32,
    /// Angular movement at or under this magnitude counts as "no motion".
    pub motion_threshold: i32,
    /// Vertical drift under this magnitude raises the zenith hypothesis.
    pub zenith_threshold: i32,
    /// Consecutive no-motion iterations needed before sunset may stop
    /// the session.
    pub no_motion_limit: u32,
    /// Brightness strictly below this value counts as sunset.
    pub sunset_threshold: u32,
    /// Bounds of the adaptive sleep interval, in seconds.
    pub sleep_min: u32,
    pub sleep_max: u32,
    /// Width, in cells, of the grid-edge margin that counts as border.
    pub border: i32,
}

impl TrackingConfig {
    pub open spec fn wf(self) -> bool {
        &&& 1 <= self.grid_min <= self.grid_max <= 999
        &&& self.grid_min % 2 == 1
        &&& self.grid_max % 2 == 1
        &&& 0 <= self.motion_threshold
        &&& 0 <= self.zenith_threshold
        &&& 1 <= self.sleep_min <= self.sleep_max <= 86400
        &&& 1 <= self.border
        &&& 2 * self.border + 1 <= self.grid_min
    }
}

/// Mutable memory carried from one tracking iteration to the next.
#[derive(Clone, Copy, Debug)]
pub struct TrackingState {
    pub last_angle_hor: i32,
    pub last_angle_ver: i32,
    pub dir_hor: Direction,
    pub dir_ver: Direction,
    pub grid_hor: i32,
    pub grid_ver: i32,
    pub sleep_interval: u32,
    pub no_motion_count: u32,
    pub zenith: bool,
}

impl TrackingState {
    /// The adaptive quantities stay inside their configured bounds, and
    /// the grid sizes keep the parity of the bounds (odd grids stay
    /// odd).
    pub open spec fn wf(self, cfg: TrackingConfig) -> bool {
        &&& cfg.grid_min <= self.grid_hor <= cfg.grid_max
        &&& cfg.grid_min <= self.grid_ver <= cfg.grid_max
        &&& self.grid_hor % 2 == 1
        &&& self.grid_ver % 2 == 1
        &&& cfg.sleep_min <= self.sleep_interval <= cfg.sleep_max
        &&& -1000000 <= self.last_angle_hor <= 1000000
        &&& -1000000 <= self.last_angle_ver <= 1000000
    }

    /// A fresh session: no drift history, widest grid, slowest-changing
    /// assumptions.
    pub fn start(cfg: &TrackingConfig, angle_hor: i32, angle_ver: i32) -> (r: TrackingState)
        requires
            cfg.wf(),
            -1000000 <= angle_hor <= 1000000,
            -1000000 <= angle_ver <= 1000000,
        ensures
            r.wf(*cfg),
            r.last_angle_hor == angle_hor,
            r.last_angle_ver == angle_ver,
            r.dir_hor == Direction::Unknown,
            r.dir_ver == Direction::Unknown,
            r.grid_hor == cfg.grid_max,
            r.grid_ver == cfg.grid_max,
            r.sleep_interval == cfg.sleep_min,
            r.no_motion_count == 0,
            !r.zenith,
    {
        TrackingState {
            last_angle_hor: angle_hor,
            last_angle_ver: angle_ver,
            dir_hor: Direction::Unknown,
            dir_ver: Direction::Unknown,
            grid_hor: cfg.grid_max,
            grid_ver: cfg.grid_max,
            sleep_interval: cfg.sleep_min,
            no_motion_count: 0,
            zenith: false,
        }
    }
}

/// What one grid-size adaptation step yields: two cells wider after
/// drift (clamped to `gmax`), two cells narrower after stillness
/// (clamped to `gmin`).  Adapting by two keeps an odd grid odd.
pub open spec fn spec_adapt_grid_size(g: int, moved: bool, gmin: int, gmax: int) -> int {
    if moved {
        if g + 2 <= gmax {
            g + 2
        } else {
            gmax
        }
    } else {
        if g - 2 >= gmin {
            g - 2
        } else {
            gmin
        }
    }
}

/// One grid-size adaptation step for one axis.
pub fn adapt_grid_size(g: i32, moved: bool, gmin: i32, gmax: i32) -> (r: i32)
    requires
        1 <= gmin <= g <= gmax <= 999,
    ensures
        r == spec_adapt_grid_size(g as int, moved, gmin as int, gmax as int),
{
    if moved {
        if g + 2 <= gmax {
            g + 2
        } else {
            gmax
        }
    } else {
        if g - 2 >= gmin {
            g - 2
        } else {
            gmin
        }
    }
}

/// Grid-size adaptation is monotone and clamped: under sustained drift
/// the size never decreases, makes strict progress until it reaches the
/// configured maximum, and never exceeds it; under sustained stillness
/// the mirror image holds toward the minimum.  Iterating the step
/// therefore walks the size monotonically onto the bound and keeps it
/// there.
pub proof fn lemma_grid_adaptation_monotone(g: int, gmin: int, gmax: int)
    requires
        1 <= gmin <= g <= gmax,
        g % 2 == 1,
        gmin % 2 == 1,
        gmax % 2 == 1,
    ensures
        gmin <= spec_adapt_grid_size(g, true, gmin, gmax) <= gmax,
        spec_adapt_grid_size(g, true, gmin, gmax) >= g,
        g < gmax ==> spec_adapt_grid_size(g, true, gmin, gmax) > g,
        g == gmax ==> spec_adapt_grid_size(g, true, gmin, gmax) == gmax,
        gmin <= spec_adapt_grid_size(g, false, gmin, gmax) <= gmax,
        spec_adapt_grid_size(g, false, gmin, gmax) <= g,
        g > gmin ==> spec_adapt_grid_size(g, false, gmin, gmax) < g,
        g == gmin ==> spec_adapt_grid_size(g, false, gmin, gmax) == gmin,
        spec_adapt_grid_size(g, true, gmin, gmax) % 2 == 1,
        spec_adapt_grid_size(g, false, gmin, gmax) % 2 == 1,
{
}

/// What one sleep-interval adaptation step yields: halved (clamped to
/// `smin`) after the search touched a border — the target almost left
/// the window, poll more often — and doubled (clamped to `smax`) after
/// a fully interior search.
pub open spec fn spec_adapt_sleep_interval(s: int, touched_border: bool, smin: int, smax: int) -> int {
    if touched_border {
        if s / 2 >= smin {
            s / 2
        } else {
            smin
        }
    } else {
        if s * 2 <= smax {
            s * 2
        } else {
            smax
        }
    }
}

/// One sleep-interval adaptation step.
pub fn adapt_sleep_interval(s: u32, touched_border: bool, smin: u32, smax: u32) -> (r: u32)
    requires
        1 <= smin <= s <= smax <= 86400,
    ensures
        r == spec_adapt_sleep_interval(s as int, touched_border, smin as int, smax as int),
        smin <= r <= smax,
{
    if touched_border {
        if s / 2 >= smin {
            s / 2
        } else {
            smin
        }
    } else {
        if s * 2 <= smax {
            s * 2
        } else {
            smax
        }
    }
}

/// The next direction hypothesis from the sign of the latest drift.  A
/// zero delta is inconclusive and keeps the previous belief rather than
/// meaning "not moving".
pub open spec fn spec_next_direction(prev: Direction, delta: int) -> Direction {
    if delta > 0 {
        Direction::Increasing
    } else if delta < 0 {
        Direction::Decreasing
    } else {
        prev
    }
}

pub fn next_direction(prev: Direction, delta: i32) -> (r: Direction)
    ensures
        r == spec_next_direction(prev, delta as int),
{
    if delta > 0 {
        Direction::Increasing
    } else if delta < 0 {
        Direction::Decreasing
    } else {
        prev
    }
}

/// The no-motion counter after one iteration: up by one while both axes
/// hold still (saturating), reset to zero the moment either one moves.
pub open spec fn spec_next_no_motion_count(count: int, both_still: bool) -> int {
    if both_still {
        if count < u32::MAX {
            count + 1
        } else {
            count
        }
    } else {
        0
    }
}

pub fn next_no_motion_count(count: u32, both_still: bool) -> (r: u32)
    ensures
        r == spec_next_no_motion_count(count as int, both_still),
{
    if both_still {
        if count < u32::MAX {
            count + 1
        } else {
            count
        }
    } else {
        0
    }
}

/// The stop rule of a tracking session: it takes the no-motion streak
/// reaching its limit *and* brightness under the sunset threshold, at
/// the same time.  A target stalled at a bright position keeps the
/// session alive.
pub open spec fn spec_should_stop_tracking(
    count: int,
    limit: int,
    brightness: int,
    sunset: int,
) -> bool {
    count >= limit && brightness < sunset
}

pub fn should_stop_tracking(count: u32, limit: u32, brightness: u32, sunset: u32) -> (r: bool)
    ensures
        r == spec_should_stop_tracking(count as int, limit as int, brightness as int, sunset as int),
{
    count >= limit && brightness < sunset
}

/// The exact relation between the session memory before and after one
/// tracking iteration that observed the platform at `(ah, av)` and
/// whether the search touched a window border.
pub open spec fn tracking_step(
    t0: TrackingState,
    cfg: TrackingConfig,
    ah: int,
    av: int,
    tb: bool,
    t1: TrackingState,
) -> bool {
    &&& t1.last_angle_hor == ah
    &&& t1.last_angle_ver == av
    &&& t1.dir_hor == spec_next_direction(t0.dir_hor, ah - t0.last_angle_hor)
    &&& t1.dir_ver == spec_next_direction(t0.dir_ver, av - t0.last_angle_ver)
    &&& t1.zenith == (-cfg.zenith_threshold <= av - t0.last_angle_ver <= cfg.zenith_threshold)
    &&& t1.grid_hor == spec_adapt_grid_size(
        t0.grid_hor as int,
        !(-cfg.motion_threshold <= ah - t0.last_angle_hor <= cfg.motion_threshold),
        cfg.grid_min as int,
        cfg.grid_max as int,
    )
    &&& t1.grid_ver == spec_adapt_grid_size(
        t0.grid_ver as int,
        !(-cfg.motion_threshold <= av - t0.last_angle_ver <= cfg.motion_threshold),
        cfg.grid_min as int,
        cfg.grid_max as int,
    )
    &&& t1.sleep_interval == spec_adapt_sleep_interval(
        t0.sleep_interval as int,
        tb,
        cfg.sleep_min as int,
        cfg.sleep_max as int,
    )
    &&& t1.no_motion_count == spec_next_no_motion_count(
        t0.no_motion_count as int,
        (-cfg.motion_threshold <= ah - t0.last_angle_hor <= cfg.motion_threshold)
            && (-cfg.motion_threshold <= av - t0.last_angle_ver <= cfg.motion_threshold),
    )
}

impl TrackingState {
    /// Folds the outcome of one grid search into the session memory:
    /// drift per axis against the last known angles, direction and
    /// zenith hypotheses from the drift, grid sizes and sleep interval
    /// adapted as the module-level steps specify, and the no-motion
    /// counter advanced.
    pub fn update_after_search(
        &mut self,
        cfg: &TrackingConfig,
        new_angle_hor: i32,
        new_angle_ver: i32,
        touched_border: bool,
    )
        requires
            cfg.wf(),
            old(self).wf(*cfg),
            -1000000 <= old(self).last_angle_hor <= 1000000,
            -1000000 <= old(self).last_angle_ver <= 1000000,
            -1000000 <= new_angle_hor <= 1000000,
            -1000000 <= new_angle_ver <= 1000000,
        ensures
            final(self).wf(*cfg),
            tracking_step(
                *old(self),
                *cfg,
                new_angle_hor as int,
                new_angle_ver as int,
                touched_border,
                *final(self),
            ),
    {
        let delta_hor = new_angle_hor - self.last_angle_hor;
        let delta_ver = new_angle_ver - self.last_angle_ver;
        let hor_still = -cfg.motion_threshold <= delta_hor && delta_hor <= cfg.motion_threshold;
        let ver_still = -cfg.motion_threshold <= delta_ver && delta_ver <= cfg.motion_threshold;

        self.dir_hor = next_direction(self.dir_hor, delta_hor);
        self.dir_ver = next_direction(self.dir_ver, delta_ver);
        self.zenith = -cfg.zenith_threshold <= delta_ver && delta_ver <= cfg.zenith_threshold;
        self.grid_hor = adapt_grid_size(self.grid_hor, !hor_still, cfg.grid_min, cfg.grid_max);
        self.grid_ver = adapt_grid_size(self.grid_ver, !ver_still, cfg.grid_min, cfg.grid_max);
        self.sleep_interval = adapt_sleep_interval(
            self.sleep_interval,
            touched_border,
            cfg.sleep_min,
            cfg.sleep_max,
        );
        self.no_motion_count = next_no_motion_count(self.no_motion_count, hor_still && ver_still);
        self.last_angle_hor = new_angle_hor;
        self.last_angle_ver = new_angle_ver;
    }
}

} // verus!
