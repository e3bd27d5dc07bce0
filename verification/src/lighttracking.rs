//! The two-axis light-seeking platform.
//!
//! A `Platform` owns one vertical and one horizontal axis plus the
//! tracking-session memory, borrows a brightness/proximity/button
//! capability per call, and runs the two search strategies: the
//! unbounded full scan for initial acquisition and the bounded grid
//! search for re-acquisition while tracking.  Brightness polarity is
//! fixed once for the whole crate: a greater reading is a better
//! (brighter) candidate, and only a strictly greater reading replaces
//! the incumbent, so the first-found optimum among equals wins.

use vstd::arithmetic::div_mod::{lemma_mod_multiples_basic, lemma_small_mod, lemma_sub_mod_noop};
use vstd::prelude::*;

use crate::motor::{MotorDriver, Speed, StepperMotor};
use crate::search::{can_step_toward, is_first_max, spec_is_border_cell, sweep_record};
use crate::tracking::{Direction, TrackingConfig, TrackingState};

verus! {

/// Proximity readings at or under this value mean the reference limit
/// is reached during axis initialization.
pub const IR_SENSOR_CLOSE_THRESHOLD: u32 = 1500;

/// Button-channel readings strictly under this value count as a press.
pub const BUTTON_PRESSED_THRESHOLD: u32 = 1500;

/// How many single steps the initialization drive may spend hunting for
/// the reference limit before giving up on a silent proximity sensor.
pub const INIT_STEP_BUDGET: u32 = 100000;

#[derive(Clone, Copy, Debug, PartialEq, Eq, Structural)]
pub enum LightTrackingError {
    /// A sensor reading could not be taken or interpreted.
    ADCFailed,
    /// The initialization drive exhausted its step budget without the
    /// proximity sensor ever reporting the reference limit.
    LimitNotFound,
}

/// A pair of axis angles: an absolute pose or a component-wise offset,
/// used to convert between device-local and world reference frames.
#[derive(Clone, Copy, Debug, PartialEq, Eq, Structural)]
pub struct MotorAngles {
    pub motor_hor: i32,
    pub motor_ver: i32,
}

impl MotorAngles {
    /// Component-wise sum.
    pub fn add(&self, rhs: &MotorAngles) -> (r: MotorAngles)
        requires
            i32::MIN <= self.motor_hor + rhs.motor_hor <= i32::MAX,
            i32::MIN <= self.motor_ver + rhs.motor_ver <= i32::MAX,
        ensures
            r.motor_hor == self.motor_hor + rhs.motor_hor,
            r.motor_ver == self.motor_ver + rhs.motor_ver,
    {
        MotorAngles {
            motor_hor: self.motor_hor + rhs.motor_hor,
            motor_ver: self.motor_ver + rhs.motor_ver,
        }
    }

    /// Component-wise difference.
    pub fn sub(&self, rhs: &MotorAngles) -> (r: MotorAngles)
        requires
            i32::MIN <= self.motor_hor - rhs.motor_hor <= i32::MAX,
            i32::MIN <= self.motor_ver - rhs.motor_ver <= i32::MAX,
        ensures
            r.motor_hor == self.motor_hor - rhs.motor_hor,
            r.motor_ver == self.motor_ver - rhs.motor_ver,
    {
        MotorAngles {
            motor_hor: self.motor_hor - rhs.motor_hor,
            motor_ver: self.motor_ver - rhs.motor_ver,
        }
    }
}

/// The analog capabilities the platform consumes: a brightness channel,
/// a proximity channel and a button channel.  Readings are noisy and
/// machine-dependent, so nothing is specified about the values; every
/// caller in this crate is verified for every possible outcome.  The
/// pose for which a reading is requested is passed along so that pure
/// implementations (simulation, tests) can model brightness as a
/// function over the angle space; hardware implementations simply read
/// their channel.
pub trait Sensors {
    /// Brightness at the given pose; greater is brighter.
    fn read_photoresistor(&mut self, at: &MotorAngles) -> Result<u32, LightTrackingError>;

    /// Proximity/limit channel at the given pose; small readings mean
    /// the reference limit is close.
    fn read_ir(&mut self, at: &MotorAngles) -> Result<u32, LightTrackingError>;

    /// Cancel-button channel; readings under
    /// `BUTTON_PRESSED_THRESHOLD` count as pressed.
    fn read_button(&mut self) -> Result<u32, LightTrackingError>;
}

/// Two positions that both sit a whole number of `ss`-steps from a
/// common base pin a step-quantized approach down to an exact landing:
/// a final position on the target's side, strictly closer than one
/// step, and itself a whole number of steps away, can only be the
/// target itself.
pub proof fn lemma_exact_landing(base: int, start: int, target: int, fin: int, ss: int)
    requires
        1 <= ss,
        (start - base) % ss == 0,
        (target - base) % ss == 0,
        start <= target ==> start <= fin <= target && target - fin < ss && (fin - start) % ss
            == 0,
        start >= target ==> target <= fin <= start && fin - target < ss && (start - fin) % ss
            == 0,
    ensures
        fin == target,
        (fin - base) % ss == 0,
{
    lemma_mod_multiples_basic(0, ss);
    if start <= target {
        lemma_sub_mod_noop(target - base, start - base, ss);
        lemma_sub_mod_noop(target - start, fin - start, ss);
        lemma_small_mod((target - fin) as nat, ss as nat);
    } else {
        lemma_sub_mod_noop(start - base, target - base, ss);
        lemma_sub_mod_noop(start - target, start - fin, ss);
        lemma_small_mod((fin - target) as nat, ss as nat);
    }
}

/// One axis phase of the full scan: the axis walked the guarded sweep
/// trace `angles` toward its target, one brightness value was charged
/// to each visited position, and the phase ended at the position of the
/// first maximum of those values.
pub open spec fn scan_phase_outcome(
    angles: Seq<int>,
    values: Seq<u32>,
    k: int,
    target: int,
    ss: int,
    maxa: int,
    end_angle: int,
) -> bool {
    &&& sweep_record(angles, target, ss, maxa)
    &&& values.len() == angles.len()
    &&& is_first_max(values, k)
    &&& end_angle == angles[k]
}

/// The full scan: a complete horizontal sweep selects the brightest
/// horizontal position, then a vertical sweep toward the vertical
/// half-range selects the brightest vertical position, with the
/// horizontal winner's brightness carried over as the incumbent the
/// first vertical candidate must strictly beat.
pub open spec fn full_scan_outcome(
    ha: Seq<int>,
    hv: Seq<u32>,
    hk: int,
    va: Seq<int>,
    vv: Seq<u32>,
    vk: int,
    hss: int,
    hmax: int,
    vss: int,
    vmax: int,
    hor_end: int,
    ver_end: int,
) -> bool {
    &&& scan_phase_outcome(ha, hv, hk, hmax, hss, hmax, hor_end)
    &&& 0 <= ha[0] < hss
    &&& scan_phase_outcome(va, vv, vk, vmax / 2, vss, vmax, ver_end)
    &&& 0 <= va[0] < vss
    &&& vv[0] == hv[hk]
}

/// Selection lands on the peak: when the samples of one scan phase are
/// strictly unimodal with their peak at index `p` — as a brightness
/// field with a single maximum over the swept angles yields — the
/// phase ends exactly at the position sampled at `p`.
pub proof fn lemma_scan_phase_peak(
    angles: Seq<int>,
    values: Seq<u32>,
    k: int,
    target: int,
    ss: int,
    maxa: int,
    end_angle: int,
    p: int,
)
    requires
        scan_phase_outcome(angles, values, k, target, ss, maxa, end_angle),
        0 <= p < values.len(),
        forall|j: int| 0 <= j < p ==> #[trigger] values[j] < values[j + 1],
        forall|j: int| p <= j < values.len() - 1 ==> values[j + 1] < #[trigger] values[j],
    ensures
        k == p,
        end_angle == angles[p],
{
    crate::search::lemma_unimodal_first_max(values, p);
    crate::search::lemma_first_max_deterministic(values, k, p);
}

/// The full scan is deterministic, hence idempotent: under a static
/// brightness field — horizontal readings a function `bh` of the
/// horizontal angle, vertical readings a function `bv` of the vertical
/// angle — two full scans that start their sweeps from the same
/// positions select the same best angle pair.  Since the scan returns
/// the axes to under one step of the zero reference first and only
/// ever moves them by whole steps, consecutive scans do start from the
/// same positions, so running the scan twice in a row yields the same
/// pose both times.
pub proof fn lemma_full_scan_deterministic(
    ha1: Seq<int>,
    hv1: Seq<u32>,
    hk1: int,
    va1: Seq<int>,
    vv1: Seq<u32>,
    vk1: int,
    ha2: Seq<int>,
    hv2: Seq<u32>,
    hk2: int,
    va2: Seq<int>,
    vv2: Seq<u32>,
    vk2: int,
    hss: int,
    hmax: int,
    vss: int,
    vmax: int,
    hor_end1: int,
    ver_end1: int,
    hor_end2: int,
    ver_end2: int,
    bh: spec_fn(int) -> u32,
    bv: spec_fn(int) -> u32,
)
    requires
        full_scan_outcome(
            ha1,
            hv1,
            hk1,
            va1,
            vv1,
            vk1,
            hss,
            hmax,
            vss,
            vmax,
            hor_end1,
            ver_end1,
        ),
        full_scan_outcome(
            ha2,
            hv2,
            hk2,
            va2,
            vv2,
            vk2,
            hss,
            hmax,
            vss,
            vmax,
            hor_end2,
            ver_end2,
        ),
        ha1[0] == ha2[0],
        va1[0] == va2[0],
        forall|i: int| 0 <= i < hv1.len() ==> #[trigger] hv1[i] == bh(ha1[i]),
        forall|i: int| 0 <= i < hv2.len() ==> #[trigger] hv2[i] == bh(ha2[i]),
        forall|i: int| 1 <= i < vv1.len() ==> #[trigger] vv1[i] == bv(va1[i]),
        forall|i: int| 1 <= i < vv2.len() ==> #[trigger] vv2[i] == bv(va2[i]),
    ensures
        hor_end1 == hor_end2,
        ver_end1 == ver_end2,
{
    crate::search::lemma_sweep_record_unique(ha1, ha2, hmax, hss, hmax);
    assert(hv1 =~= hv2);
    crate::search::lemma_first_max_deterministic(hv1, hk1, hk2);
    crate::search::lemma_sweep_record_unique(va1, va2, vmax / 2, vss, vmax);
    assert(vv1 =~= vv2);
    crate::search::lemma_first_max_deterministic(vv1, vk1, vk2);
}

/// How many grid rounds one tracking iteration may chain while the
/// winner keeps landing on a window border.
pub const SEARCH_MAX_ROUNDS: u32 = 8;

/// The winner of one grid round: its brightness, the pose at which it
/// was read, and its geometric cell indices in the scan window.
#[derive(Clone, Copy, Debug, PartialEq, Eq, Structural)]
pub struct RoundWinner {
    pub brightness: u32,
    pub angle_hor: i32,
    pub angle_ver: i32,
    pub cell_hor: i32,
    pub cell_ver: i32,
}

/// What the bounded grid search returns: the winning candidate of the
/// last round, whether each axis ever produced a border winner during
/// the (possibly multi-round) search, how many rounds ran, and whether
/// the search ended because the winner was interior (rather than by
/// exhausting its round budget).
#[derive(Clone, Copy, Debug, PartialEq, Eq, Structural)]
pub struct GridSearchResult {
    pub brightness: u32,
    pub angle_hor: i32,
    pub angle_ver: i32,
    pub cell_hor: i32,
    pub cell_ver: i32,
    pub hor_border: bool,
    pub ver_border: bool,
    pub rounds: u32,
    pub converged: bool,
}

/// The selection of one grid round: `vals` are the brightness samples
/// in raster-scan order over the whole `nh * nv` window, `bk` is the
/// first-maximum index among them, and the winner's brightness and
/// geometric cell indices are exactly those of sample `bk`.
pub open spec fn grid_scan_selection(
    vals: Seq<u32>,
    bk: int,
    nh: int,
    nv: int,
    corner_low_hor: bool,
    corner_low_ver: bool,
    w: RoundWinner,
) -> bool {
    &&& vals.len() == nh * nv
    &&& is_first_max(vals, bk)
    &&& w.brightness == vals[bk]
    &&& w.cell_hor == crate::search::spec_scan_cell_i(bk, nh, corner_low_hor)
    &&& w.cell_ver == crate::search::spec_scan_cell_j(bk, nh, nv, corner_low_ver)
}

/// The geometric tie of a round winner to its scan window: the window
/// was centered on an in-travel pose `(center_hor, center_ver)`, and
/// the winner's recorded pose sits strictly within one step of the
/// nominal (clamped) angle of its cell in that window — so the border
/// classification of the returned cell indices speaks about the
/// geometric position actually returned.
pub open spec fn winner_cell_geometry(
    w: RoundWinner,
    nh: int,
    nv: int,
    hss: int,
    vss: int,
    hmax: int,
    vmax: int,
    center_hor: int,
    center_ver: int,
) -> bool {
    &&& 0 <= center_hor <= hmax
    &&& 0 <= center_ver <= vmax
    &&& -hss < w.angle_hor - crate::search::spec_cell_angle(
        center_hor,
        nh,
        w.cell_hor as int,
        hss,
        hmax,
    ) < hss
    &&& -vss < w.angle_ver - crate::search::spec_cell_angle(
        center_ver,
        nv,
        w.cell_ver as int,
        vss,
        vmax,
    ) < vss
}

/// The light-seeking platform: a vertical and a horizontal stepper axis
/// plus the cross-iteration tracking memory.
pub struct Platform<D1, D2> {
    pub stepper_motor_ver: StepperMotor<D1>,
    pub stepper_motor_hor: StepperMotor<D2>,
    pub config: TrackingConfig,
    pub tracking: TrackingState,
}

impl<D1: MotorDriver, D2: MotorDriver> Platform<D1, D2> {
    /// Both axes and the tracking memory are well-formed.
    pub open spec fn wf(self) -> bool {
        &&& self.stepper_motor_ver.wf()
        &&& self.stepper_motor_hor.wf()
        &&& self.config.wf()
        &&& self.tracking.wf(self.config)
    }

    /// Well-formed and with both angle estimates trustworthy.
    pub open spec fn ready(self) -> bool {
        &&& self.wf()
        &&& self.stepper_motor_ver.initialized_angles
        &&& self.stepper_motor_hor.initialized_angles
    }

    /// Neither axis changed its travel configuration.
    pub open spec fn same_motor_config(self, other: Self) -> bool {
        &&& self.stepper_motor_ver.same_config(other.stepper_motor_ver)
        &&& self.stepper_motor_hor.same_config(other.stepper_motor_hor)
        &&& self.config == other.config
    }

    pub fn new(
        stepper_motor_ver: StepperMotor<D1>,
        stepper_motor_hor: StepperMotor<D2>,
        config: TrackingConfig,
    ) -> (r: Platform<D1, D2>)
        requires
            stepper_motor_ver.wf(),
            stepper_motor_hor.wf(),
            config.wf(),
        ensures
            r.wf(),
            r.stepper_motor_ver == stepper_motor_ver,
            r.stepper_motor_hor == stepper_motor_hor,
            r.config == config,
            r.tracking.last_angle_hor == stepper_motor_hor.current_angle,
            r.tracking.last_angle_ver == stepper_motor_ver.current_angle,
            r.tracking.dir_hor == Direction::Unknown,
            r.tracking.dir_ver == Direction::Unknown,
            r.tracking.grid_hor == config.grid_max,
            r.tracking.grid_ver == config.grid_max,
            r.tracking.sleep_interval == config.sleep_min,
            r.tracking.no_motion_count == 0,
            !r.tracking.zenith,
    {
        let ver_angle = stepper_motor_ver.current_angle();
        let hor_angle = stepper_motor_hor.current_angle();
        let tracking = TrackingState::start(&config, hor_angle, ver_angle);
        Platform { stepper_motor_ver, stepper_motor_hor, config, tracking }
    }

    /// The current pose of the platform.
    pub fn get_current_angles(&self) -> (r: MotorAngles)
        ensures
            r.motor_hor == self.stepper_motor_hor.current_angle,
            r.motor_ver == self.stepper_motor_ver.current_angle,
    {
        MotorAngles {
            motor_hor: self.stepper_motor_hor.current_angle(),
            motor_ver: self.stepper_motor_ver.current_angle(),
        }
    }

    /// Drives both axes back toward the zero reference (each ends under
    /// one step away, having moved a whole number of steps) and clears
    /// the horizontal direction hypothesis.
    pub fn reset_motors_position(&mut self)
        requires
            old(self).ready(),
        ensures
            final(self).ready(),
            final(self).same_motor_config(*old(self)),
            0 <= final(self).stepper_motor_hor.current_angle
                < final(self).stepper_motor_hor.step_size,
            0 <= final(self).stepper_motor_ver.current_angle
                < final(self).stepper_motor_ver.step_size,
            (old(self).stepper_motor_hor.current_angle
                - final(self).stepper_motor_hor.current_angle) % (
            old(self).stepper_motor_hor.step_size as int) == 0,
            (old(self).stepper_motor_ver.current_angle
                - final(self).stepper_motor_ver.current_angle) % (
            old(self).stepper_motor_ver.step_size as int) == 0,
            final(self).tracking.dir_hor == Direction::Unknown,
    {
        self.stepper_motor_hor.rotate_to_angle(Speed::High, 0);
        self.stepper_motor_hor.stop_motor();
        self.stepper_motor_ver.rotate_to_angle(Speed::High, 0);
        self.stepper_motor_ver.stop_motor();
        self.tracking.dir_hor = Direction::Unknown;
    }

    /// Polls the cancel button; on a press the platform is returned to
    /// the zero reference.  Reports whether the press happened.
    pub fn reset_if_button_pressed<S: Sensors>(&mut self, sensors: &mut S) -> (r: Result<
        bool,
        LightTrackingError,
    >)
        requires
            old(self).ready(),
        ensures
            final(self).ready(),
            final(self).same_motor_config(*old(self)),
            r == Ok::<bool, LightTrackingError>(true) ==> {
                &&& 0 <= final(self).stepper_motor_hor.current_angle
                    < final(self).stepper_motor_hor.step_size
                &&& 0 <= final(self).stepper_motor_ver.current_angle
                    < final(self).stepper_motor_ver.step_size
                &&& final(self).tracking.dir_hor == Direction::Unknown
            },
            !(r == Ok::<bool, LightTrackingError>(true)) ==> *final(self) == *old(self),
    {
        let value = match sensors.read_button() {
            Ok(v) => v,
            Err(e) => {
                return Err(e);
            },
        };
        if value < BUTTON_PRESSED_THRESHOLD {
            self.reset_motors_position();
            Ok(true)
        } else {
            Ok(false)
        }
    }

    /// Moves the vertical then the horizontal axis to the given targets
    /// (each lands strictly within one step of a target inside travel;
    /// a target outside travel leaves that axis untouched).
    pub fn rotate_to_angle(&mut self, ver_angle: i32, hor_angle: i32)
        requires
            old(self).ready(),
        ensures
            final(self).ready(),
            final(self).same_motor_config(*old(self)),
            final(self).tracking == old(self).tracking,
            0 <= ver_angle <= old(self).stepper_motor_ver.max_angle ==> {
                let diff = ver_angle - final(self).stepper_motor_ver.current_angle;
                -old(self).stepper_motor_ver.step_size < diff
                    < old(self).stepper_motor_ver.step_size
            },
            !(0 <= ver_angle <= old(self).stepper_motor_ver.max_angle)
                ==> final(self).stepper_motor_ver.current_angle == old(
                self,
            ).stepper_motor_ver.current_angle,
            0 <= hor_angle <= old(self).stepper_motor_hor.max_angle ==> {
                let diff = hor_angle - final(self).stepper_motor_hor.current_angle;
                -old(self).stepper_motor_hor.step_size < diff
                    < old(self).stepper_motor_hor.step_size
            },
            !(0 <= hor_angle <= old(self).stepper_motor_hor.max_angle)
                ==> final(self).stepper_motor_hor.current_angle == old(
                self,
            ).stepper_motor_hor.current_angle,
    {
        self.stepper_motor_ver.rotate_to_angle(Speed::High, ver_angle);
        self.stepper_motor_ver.stop_motor();
        self.stepper_motor_hor.rotate_to_angle(Speed::High, hor_angle);
        self.stepper_motor_hor.stop_motor();
    }

    /// Proximity reading at the current pose.
    pub fn read_ir<S: Sensors>(&mut self, sensors: &mut S) -> (r: Result<u32, LightTrackingError>)
        ensures
            *final(self) == *old(self),
    {
        let at = self.get_current_angles();
        sensors.read_ir(&at)
    }

    /// Brightness reading at the current pose.
    pub fn read_photoresistor<S: Sensors>(&mut self, sensors: &mut S) -> (r: Result<
        u32,
        LightTrackingError,
    >)
        ensures
            *final(self) == *old(self),
    {
        let at = self.get_current_angles();
        sensors.read_photoresistor(&at)
    }

    /// Drives the horizontal axis toward its lower limit until the
    /// proximity sensor reports the reference, then declares the zero
    /// reference there.  The hunt is bounded by `INIT_STEP_BUDGET`
    /// single steps; a proximity sensor that never fires within the
    /// budget yields `LimitNotFound`, a failed reading propagates, and
    /// in both failure cases the angle estimate stays untrusted.
    pub fn init_motors<S: Sensors>(&mut self, sensors: &mut S) -> (r: Result<
        (),
        LightTrackingError,
    >)
        requires
            old(self).wf(),
            old(self).stepper_motor_ver.initialized_angles,
        ensures
            final(self).wf(),
            final(self).stepper_motor_ver.same_config(old(self).stepper_motor_ver),
            final(self).stepper_motor_hor.max_angle == old(self).stepper_motor_hor.max_angle,
            final(self).stepper_motor_hor.step_size == old(self).stepper_motor_hor.step_size,
            r == Ok::<(), LightTrackingError>(()) ==> {
                &&& final(self).ready()
                &&& final(self).stepper_motor_hor.current_angle == 0
            },
            r != Ok::<(), LightTrackingError>(())
                ==> final(self).stepper_motor_hor.initialized_angles == old(
                self,
            ).stepper_motor_hor.initialized_angles,
    {
        let mut attempts: u32 = 0;
        while attempts < INIT_STEP_BUDGET
            invariant
                self.wf(),
                self.stepper_motor_ver.initialized_angles,
                self.stepper_motor_ver.same_config(old(self).stepper_motor_ver),
                self.stepper_motor_hor.same_config(old(self).stepper_motor_hor),
            decreases INIT_STEP_BUDGET - attempts,
        {
            let value = match self.read_ir(sensors) {
                Ok(v) => v,
                Err(e) => {
                    return Err(e);
                },
            };
            if value <= IR_SENSOR_CLOSE_THRESHOLD {
                self.stepper_motor_hor.stop_motor();
                self.stepper_motor_hor.init_angle();
                return Ok(());
            }
            self.stepper_motor_hor.rotate_right(Speed::Low);
            attempts = attempts + 1;
        }
        Err(LightTrackingError::LimitNotFound)
    }

    /// Exercises both axes: a thousand left steps, then a thousand
    /// right steps, per axis, each saturating at the travel limits.
    /// The estimates never leave travel, and whenever a thousand steps
    /// cover an axis's travel range, that axis ends strictly under one
    /// step from the zero reference.
    pub fn test_movement(&mut self)
        requires
            old(self).ready(),
        ensures
            final(self).ready(),
            final(self).same_motor_config(*old(self)),
            old(self).stepper_motor_hor.max_angle <= 1000 * old(self).stepper_motor_hor.step_size
                ==> final(self).stepper_motor_hor.current_angle
                    < old(self).stepper_motor_hor.step_size,
            old(self).stepper_motor_ver.max_angle <= 1000 * old(self).stepper_motor_ver.step_size
                ==> final(self).stepper_motor_ver.current_angle
                    < old(self).stepper_motor_ver.step_size,
    {
        let mut i: u32 = 0;
        while i < 1000
            invariant
                self.wf(),
                self.stepper_motor_ver.initialized_angles,
                self.stepper_motor_hor.initialized_angles,
                self.same_motor_config(*old(self)),
            decreases 1000 - i,
        {
            self.stepper_motor_hor.rotate_left(Speed::Low);
            i = i + 1;
        }
        let ghost hr0 = self.stepper_motor_hor.current_angle as int;
        let mut i: u32 = 0;
        while i < 1000
            invariant
                self.wf(),
                self.stepper_motor_ver.initialized_angles,
                self.stepper_motor_hor.initialized_angles,
                self.same_motor_config(*old(self)),
                i <= 1000,
                0 <= self.stepper_motor_hor.current_angle <= hr0,
                self.stepper_motor_hor.current_angle as int == hr0 - (i as int) * (
                self.stepper_motor_hor.step_size as int) || self.stepper_motor_hor.current_angle
                    < self.stepper_motor_hor.step_size,
            decreases 1000 - i,
        {
            proof {
                let ss = self.stepper_motor_hor.step_size as int;
                assert((i as int + 1) * ss == (i as int) * ss + ss) by (nonlinear_arith);
            }
            self.stepper_motor_hor.rotate_right(Speed::Low);
            i = i + 1;
        }
        self.stepper_motor_hor.stop_motor();
        let ghost hor_rest = self.stepper_motor_hor.current_angle as int;
        proof {
            if old(self).stepper_motor_hor.max_angle
                <= 1000 * old(self).stepper_motor_hor.step_size {
                assert(hor_rest < old(self).stepper_motor_hor.step_size);
            }
        }
        let mut i: u32 = 0;
        while i < 1000
            invariant
                self.wf(),
                self.stepper_motor_ver.initialized_angles,
                self.stepper_motor_hor.initialized_angles,
                self.same_motor_config(*old(self)),
                self.stepper_motor_hor.current_angle as int == hor_rest,
            decreases 1000 - i,
        {
            self.stepper_motor_ver.rotate_left(Speed::Low);
            i = i + 1;
        }
        let ghost vr0 = self.stepper_motor_ver.current_angle as int;
        let mut i: u32 = 0;
        while i < 1000
            invariant
                self.wf(),
                self.stepper_motor_ver.initialized_angles,
                self.stepper_motor_hor.initialized_angles,
                self.same_motor_config(*old(self)),
                self.stepper_motor_hor.current_angle as int == hor_rest,
                i <= 1000,
                0 <= self.stepper_motor_ver.current_angle <= vr0,
                self.stepper_motor_ver.current_angle as int == vr0 - (i as int) * (
                self.stepper_motor_ver.step_size as int) || self.stepper_motor_ver.current_angle
                    < self.stepper_motor_ver.step_size,
            decreases 1000 - i,
        {
            proof {
                let ss = self.stepper_motor_ver.step_size as int;
                assert((i as int + 1) * ss == (i as int) * ss + ss) by (nonlinear_arith);
            }
            self.stepper_motor_ver.rotate_right(Speed::Low);
            i = i + 1;
        }
        self.stepper_motor_ver.stop_motor();
    }

    /// The horizontal phase of the full scan: seed the incumbent with a
    /// reading at the current position, sweep left across the whole
    /// travel reading at every step, then move back to the brightest
    /// position found (exactly, thanks to step quantization).  Returns
    /// the winning brightness together with the sweep trace.
    #[verifier::rlimit(100)]
    #[verifier::spinoff_prover]
    fn scan_axis_hor<S: Sensors>(&mut self, sensors: &mut S) -> (r: Result<
        (u32, Ghost<(Seq<int>, Seq<u32>, int)>),
        LightTrackingError,
    >)
        requires
            old(self).ready(),
        ensures
            final(self).ready(),
            final(self).same_motor_config(*old(self)),
            final(self).stepper_motor_ver.current_angle == old(
                self,
            ).stepper_motor_ver.current_angle,
            final(self).tracking == old(self).tracking,
            r matches Ok(p) ==> {
                let (ha, hv, hk) = p.1@;
                &&& scan_phase_outcome(
                    ha,
                    hv,
                    hk,
                    old(self).stepper_motor_hor.max_angle as int,
                    old(self).stepper_motor_hor.step_size as int,
                    old(self).stepper_motor_hor.max_angle as int,
                    final(self).stepper_motor_hor.current_angle as int,
                )
                &&& ha[0] == old(self).stepper_motor_hor.current_angle as int
                &&& p.0 == hv[hk]
            },
    {
        let ghost hss = self.stepper_motor_hor.step_size as int;
        let ghost hmax = self.stepper_motor_hor.max_angle as int;

        let start_pose = self.get_current_angles();
        let mut best_value = match sensors.read_photoresistor(&start_pose) {
            Ok(v) => v,
            Err(e) => {
                return Err(e);
            },
        };
        let mut best_angle_hor = self.stepper_motor_hor.current_angle();
        let ghost h0 = self.stepper_motor_hor.current_angle as int;
        let ghost mut ha: Seq<int> = seq![h0];
        let ghost mut hv: Seq<u32> = seq![best_value];
        let ghost mut hk: int = 0;

        proof {
            assert(0 * hss == 0) by (nonlinear_arith);
        }
        while self.stepper_motor_hor.rotatable_left()
            invariant
                self.wf(),
                self.stepper_motor_ver.initialized_angles,
                self.stepper_motor_hor.initialized_angles,
                self.same_motor_config(*old(self)),
                self.stepper_motor_ver.current_angle == old(self).stepper_motor_ver.current_angle,
                self.tracking == old(self).tracking,
                hss == self.stepper_motor_hor.step_size as int,
                hmax == self.stepper_motor_hor.max_angle as int,
                ha.len() == hv.len() >= 1,
                0 <= h0,
                h0 == old(self).stepper_motor_hor.current_angle as int,
                forall|i: int| 0 <= i < ha.len() ==> #[trigger] ha[i] == h0 + i * hss,
                self.stepper_motor_hor.current_angle as int == ha[ha.len() - 1],
                is_first_max(hv, hk),
                best_value == hv[hk],
                best_angle_hor as int == ha[hk],
            decreases self.stepper_motor_hor.max_angle - self.stepper_motor_hor.current_angle,
        {
            let angle = self.stepper_motor_hor.rotate_left(Speed::HighMedium);
            let pose = self.get_current_angles();
            let value = match sensors.read_photoresistor(&pose) {
                Ok(v) => v,
                Err(e) => {
                    return Err(e);
                },
            };
            proof {
                let n = ha.len() as int;
                assert((n - 1) * hss + hss == n * hss) by (nonlinear_arith);
                ha = ha.push(angle as int);
                hv = hv.push(value);
            }
            if value > best_value {
                best_value = value;
                best_angle_hor = angle;
                proof {
                    hk = hv.len() - 1;
                }
            }
        }

        proof {
            let n = ha.len() as int;
            crate::search::lemma_ascending_sweep(ha, h0, hss, hmax, hmax);
            vstd::arithmetic::mul::lemma_mul_inequality(hk, n - 1, hss);
            vstd::arithmetic::mul::lemma_mul_nonnegative(hk, hss);
            lemma_mod_multiples_basic(n - 1, hss);
            lemma_mod_multiples_basic(hk, hss);
        }
        let ghost hor_before = self.stepper_motor_hor.current_angle as int;
        self.stepper_motor_hor.rotate_to_angle(Speed::High, best_angle_hor);
        proof {
            lemma_exact_landing(
                h0,
                hor_before,
                best_angle_hor as int,
                self.stepper_motor_hor.current_angle as int,
                hss,
            );
        }
        self.stepper_motor_hor.stop_motor();
        Ok((best_value, Ghost((ha, hv, hk))))
    }

    /// The vertical phase of the full scan: sweep step by step toward
    /// the vertical half-range with `seed` as the incumbent brightness
    /// charged to the start position, then move back to the winner.
    /// The axis must stand near the zero reference (under one step), so
    /// the sweep only ever ascends.
    #[verifier::rlimit(100)]
    #[verifier::spinoff_prover]
    fn scan_axis_ver<S: Sensors>(&mut self, sensors: &mut S, seed: u32) -> (r: Result<
        (u32, Ghost<(Seq<int>, Seq<u32>, int)>),
        LightTrackingError,
    >)
        requires
            old(self).ready(),
            old(self).stepper_motor_ver.current_angle < old(self).stepper_motor_ver.step_size,
        ensures
            final(self).ready(),
            final(self).same_motor_config(*old(self)),
            final(self).stepper_motor_hor.current_angle == old(
                self,
            ).stepper_motor_hor.current_angle,
            final(self).tracking == old(self).tracking,
            r matches Ok(p) ==> {
                let (va, vv, vk) = p.1@;
                &&& scan_phase_outcome(
                    va,
                    vv,
                    vk,
                    old(self).stepper_motor_ver.max_angle as int / 2,
                    old(self).stepper_motor_ver.step_size as int,
                    old(self).stepper_motor_ver.max_angle as int,
                    final(self).stepper_motor_ver.current_angle as int,
                )
                &&& va[0] == old(self).stepper_motor_ver.current_angle as int
                &&& vv[0] == seed
                &&& p.0 == vv[vk]
            },
    {
        let ghost vss = self.stepper_motor_ver.step_size as int;
        let ghost vmax = self.stepper_motor_ver.max_angle as int;

        let half_max_angle = self.stepper_motor_ver.max_angle() / 2;
        let mut best_value = seed;
        let mut best_angle_ver = self.stepper_motor_ver.current_angle();
        let ghost v0 = self.stepper_motor_ver.current_angle as int;
        let ghost mut va: Seq<int> = seq![v0];
        let ghost mut vv: Seq<u32> = seq![seed];
        let ghost mut vk: int = 0;

        proof {
            assert(0 * vss == 0) by (nonlinear_arith);
        }
        while self.stepper_motor_ver.rotatable_to_angle(half_max_angle)
            invariant
                self.wf(),
                self.stepper_motor_ver.initialized_angles,
                self.stepper_motor_hor.initialized_angles,
                self.same_motor_config(*old(self)),
                self.stepper_motor_hor.current_angle == old(self).stepper_motor_hor.current_angle,
                self.tracking == old(self).tracking,
                vss == self.stepper_motor_ver.step_size as int,
                vmax == self.stepper_motor_ver.max_angle as int,
                half_max_angle as int == vmax / 2,
                va.len() == vv.len() >= 1,
                0 <= v0 < vss,
                v0 == old(self).stepper_motor_ver.current_angle as int,
                vv[0] == seed,
                forall|i: int| 0 <= i < va.len() ==> #[trigger] va[i] == v0 + i * vss,
                self.stepper_motor_ver.current_angle as int == va[va.len() - 1],
                va.len() > 1 ==> v0 < vmax / 2,
                va.len() > 1 ==> va[va.len() - 1] <= vmax / 2,
                is_first_max(vv, vk),
                best_value == vv[vk],
                best_angle_ver as int == va[vk],
            decreases
                if self.stepper_motor_ver.current_angle < half_max_angle {
                    half_max_angle - self.stepper_motor_ver.current_angle
                } else {
                    self.stepper_motor_ver.current_angle - half_max_angle
                },
        {
            let angle = self.stepper_motor_ver.rotate_single_step_to_angle(
                Speed::HighMedium,
                half_max_angle,
            );
            let pose = self.get_current_angles();
            let value = match sensors.read_photoresistor(&pose) {
                Ok(v) => v,
                Err(e) => {
                    return Err(e);
                },
            };
            proof {
                let n = va.len() as int;
                assert((n - 1) * vss + vss == n * vss) by (nonlinear_arith);
                va = va.push(angle as int);
                vv = vv.push(value);
            }
            if value > best_value {
                best_value = value;
                best_angle_ver = angle;
                proof {
                    vk = vv.len() - 1;
                }
            }
        }

        proof {
            let n = va.len() as int;
            crate::search::lemma_ascending_sweep(va, v0, vss, vmax / 2, vmax);
            vstd::arithmetic::mul::lemma_mul_inequality(vk, n - 1, vss);
            vstd::arithmetic::mul::lemma_mul_nonnegative(vk, vss);
            lemma_mod_multiples_basic(n - 1, vss);
            lemma_mod_multiples_basic(vk, vss);
        }
        let ghost ver_before = self.stepper_motor_ver.current_angle as int;
        self.stepper_motor_ver.rotate_to_angle(Speed::High, best_angle_ver);
        proof {
            lemma_exact_landing(
                v0,
                ver_before,
                best_angle_ver as int,
                self.stepper_motor_ver.current_angle as int,
                vss,
            );
        }
        self.stepper_motor_ver.stop_motor();
        Ok((best_value, Ghost((va, vv, vk))))
    }

    /// The full acquisition scan.  The platform first returns to the
    /// zero reference, then sweeps the horizontal axis across its whole
    /// travel reading brightness at every step, moves to the brightest
    /// horizontal position found, and repeats the procedure vertically
    /// toward the vertical half-range, carrying the horizontal winner's
    /// brightness as the incumbent.  Strict improvement only: among
    /// equal readings the first-visited position wins.  On success the
    /// final pose is exactly the selected position of each phase, as
    /// `full_scan_outcome` states; a failed reading aborts the scan
    /// with the axes left wherever they were.
    pub fn find_best_position<S: Sensors>(&mut self, sensors: &mut S) -> (r: Result<
        (),
        LightTrackingError,
    >)
        requires
            old(self).ready(),
        ensures
            final(self).ready(),
            final(self).same_motor_config(*old(self)),
            r == Ok::<(), LightTrackingError>(()) ==> exists|
                ha: Seq<int>,
                hv: Seq<u32>,
                hk: int,
                va: Seq<int>,
                vv: Seq<u32>,
                vk: int,
            |
                full_scan_outcome(
                    ha,
                    hv,
                    hk,
                    va,
                    vv,
                    vk,
                    old(self).stepper_motor_hor.step_size as int,
                    old(self).stepper_motor_hor.max_angle as int,
                    old(self).stepper_motor_ver.step_size as int,
                    old(self).stepper_motor_ver.max_angle as int,
                    final(self).stepper_motor_hor.current_angle as int,
                    final(self).stepper_motor_ver.current_angle as int,
                ),
    {
        self.reset_motors_position();

        let (hor_best, hor_trace) = match self.scan_axis_hor(sensors) {
            Ok(p) => p,
            Err(e) => {
                return Err(e);
            },
        };
        let (_ver_best, ver_trace) = match self.scan_axis_ver(sensors, hor_best) {
            Ok(p) => p,
            Err(e) => {
                return Err(e);
            },
        };

        proof {
            let (ha, hv, hk) = hor_trace@;
            let (va, vv, vk) = ver_trace@;
            assert(full_scan_outcome(
                ha,
                hv,
                hk,
                va,
                vv,
                vk,
                old(self).stepper_motor_hor.step_size as int,
                old(self).stepper_motor_hor.max_angle as int,
                old(self).stepper_motor_ver.step_size as int,
                old(self).stepper_motor_ver.max_angle as int,
                self.stepper_motor_hor.current_angle as int,
                self.stepper_motor_ver.current_angle as int,
            ));
        }
        Ok(())
    }

    /// One round of the bounded grid search: raster-scans the
    /// `nh * nv` cell window centered on the current pose (cells one
    /// step apart, clamped into travel, rows boustrophedon from the
    /// given corner), reads brightness at every cell, and returns the
    /// strict-improvement winner with its geometric cell indices.  The
    /// axes are left at the last scanned cell.
    #[verifier::rlimit(100)]
    #[verifier::spinoff_prover]
    fn grid_round<S: Sensors>(
        &mut self,
        sensors: &mut S,
        speed: Speed,
        nh: i32,
        nv: i32,
        corner_low_hor: bool,
        corner_low_ver: bool,
    ) -> (r: Result<RoundWinner, LightTrackingError>)
        requires
            old(self).ready(),
            1 <= nh <= 999,
            1 <= nv <= 999,
        ensures
            final(self).ready(),
            final(self).same_motor_config(*old(self)),
            final(self).tracking == old(self).tracking,
            r matches Ok(w) ==> {
                &&& 0 <= w.cell_hor < nh
                &&& 0 <= w.cell_ver < nv
                &&& 0 <= w.angle_hor <= old(self).stepper_motor_hor.max_angle
                &&& 0 <= w.angle_ver <= old(self).stepper_motor_ver.max_angle
                &&& {
                    let nominal_h = crate::search::spec_cell_angle(
                        old(self).stepper_motor_hor.current_angle as int,
                        nh as int,
                        w.cell_hor as int,
                        old(self).stepper_motor_hor.step_size as int,
                        old(self).stepper_motor_hor.max_angle as int,
                    );
                    -old(self).stepper_motor_hor.step_size < w.angle_hor - nominal_h < old(
                        self,
                    ).stepper_motor_hor.step_size
                }
                &&& {
                    let nominal_v = crate::search::spec_cell_angle(
                        old(self).stepper_motor_ver.current_angle as int,
                        nv as int,
                        w.cell_ver as int,
                        old(self).stepper_motor_ver.step_size as int,
                        old(self).stepper_motor_ver.max_angle as int,
                    );
                    -old(self).stepper_motor_ver.step_size < w.angle_ver - nominal_v < old(
                        self,
                    ).stepper_motor_ver.step_size
                }
                &&& exists|vals: Seq<u32>, bk: int|
                    grid_scan_selection(
                        vals,
                        bk,
                        nh as int,
                        nv as int,
                        corner_low_hor,
                        corner_low_ver,
                        w,
                    )
            },
    {
        let hc = self.stepper_motor_hor.current_angle();
        let vc = self.stepper_motor_ver.current_angle();
        let hor_ss = self.stepper_motor_hor.step_size();
        let hor_max = self.stepper_motor_hor.max_angle();
        let ver_ss = self.stepper_motor_ver.step_size();
        let ver_max = self.stepper_motor_ver.max_angle();

        let nh_u = nh as u32;
        let nv_u = nv as u32;
        proof {
            assert(nh_u * nv_u <= 999 * 999) by (nonlinear_arith)
                requires
                    1 <= nh_u <= 999,
                    1 <= nv_u <= 999,
            ;
        }
        let total: u32 = nh_u * nv_u;

        let mut best = RoundWinner {
            brightness: 0,
            angle_hor: hc,
            angle_ver: vc,
            cell_hor: 0,
            cell_ver: 0,
        };
        let ghost mut vals: Seq<u32> = Seq::empty();
        let ghost mut bk: int = 0;

        let mut m: u32 = 0;
        while m < total
            invariant
                self.wf(),
                self.stepper_motor_ver.initialized_angles,
                self.stepper_motor_hor.initialized_angles,
                self.same_motor_config(*old(self)),
                self.tracking == old(self).tracking,
                1 <= nh <= 999,
                1 <= nv <= 999,
                nh_u == nh as u32,
                nv_u == nv as u32,
                total == nh_u * nv_u,
                hc == old(self).stepper_motor_hor.current_angle,
                vc == old(self).stepper_motor_ver.current_angle,
                hor_ss == self.stepper_motor_hor.step_size,
                hor_max == self.stepper_motor_hor.max_angle,
                ver_ss == self.stepper_motor_ver.step_size,
                ver_max == self.stepper_motor_ver.max_angle,
                0 <= hc <= hor_max,
                0 <= vc <= ver_max,
                m <= total,
                vals.len() == m as int,
                m >= 1 ==> {
                    &&& is_first_max(vals, bk)
                    &&& best.brightness == vals[bk]
                    &&& best.cell_hor as int == crate::search::spec_scan_cell_i(
                        bk,
                        nh as int,
                        corner_low_hor,
                    )
                    &&& best.cell_ver as int == crate::search::spec_scan_cell_j(
                        bk,
                        nh as int,
                        nv as int,
                        corner_low_ver,
                    )
                    &&& 0 <= best.cell_hor < nh
                    &&& 0 <= best.cell_ver < nv
                    &&& 0 <= best.angle_hor <= hor_max
                    &&& 0 <= best.angle_ver <= ver_max
                    &&& -hor_ss < best.angle_hor - crate::search::spec_cell_angle(
                        hc as int,
                        nh as int,
                        best.cell_hor as int,
                        hor_ss as int,
                        hor_max as int,
                    ) < hor_ss
                    &&& -ver_ss < best.angle_ver - crate::search::spec_cell_angle(
                        vc as int,
                        nv as int,
                        best.cell_ver as int,
                        ver_ss as int,
                        ver_max as int,
                    ) < ver_ss
                },
            decreases total - m,
        {
            let (iu, ju) = crate::search::scan_cell(m, nh_u, nv_u, corner_low_hor, corner_low_ver);
            let i = iu as i32;
            let j = ju as i32;
            let target_ver = crate::search::cell_angle(vc, nv, j, ver_ss, ver_max);
            let angle_ver = self.stepper_motor_ver.rotate_to_angle(speed, target_ver);
            let target_hor = crate::search::cell_angle(hc, nh, i, hor_ss, hor_max);
            let angle_hor = self.stepper_motor_hor.rotate_to_angle(speed, target_hor);
            let pose = MotorAngles { motor_hor: angle_hor, motor_ver: angle_ver };
            let value = match sensors.read_photoresistor(&pose) {
                Ok(v) => v,
                Err(e) => {
                    return Err(e);
                },
            };
            proof {
                vals = vals.push(value);
            }
            if m == 0 || value > best.brightness {
                best =
                RoundWinner {
                    brightness: value,
                    angle_hor,
                    angle_ver,
                    cell_hor: i,
                    cell_ver: j,
                };
                proof {
                    bk = vals.len() - 1;
                }
            }
            m = m + 1;
        }

        proof {
            assert(1 <= nh_u * nv_u) by (nonlinear_arith)
                requires
                    1 <= nh_u,
                    1 <= nv_u,
            ;
            assert(grid_scan_selection(
                vals,
                bk,
                nh as int,
                nv as int,
                corner_low_hor,
                corner_low_ver,
                best,
            ));
        }
        Ok(best)
    }

    /// The bounded grid search: one grid round around the current pose,
    /// re-centered on its winner and repeated while that winner lands
    /// within `border` cells of the window edge (the true optimum then
    /// likely lies outside the window), up to `max_rounds` rounds.  The
    /// result carries the last round's winner, whether each axis ever
    /// produced a border winner, and whether the search converged to an
    /// interior winner: a converged result is never a border cell — and
    /// with a margin of at least one, never an edge cell — of its
    /// window.  The axes end within one step of the winning pose.
    pub fn search_scope<S: Sensors>(
        &mut self,
        sensors: &mut S,
        speed: Speed,
        grid_hor: i32,
        grid_ver: i32,
        border: i32,
        max_rounds: u32,
        corner_low_hor: bool,
        corner_low_ver: bool,
    ) -> (r: Result<GridSearchResult, LightTrackingError>)
        requires
            old(self).ready(),
            1 <= grid_hor <= 999,
            1 <= grid_ver <= 999,
            1 <= border,
            2 * border + 1 <= grid_hor,
            2 * border + 1 <= grid_ver,
            1 <= max_rounds <= 10000,
        ensures
            final(self).ready(),
            final(self).same_motor_config(*old(self)),
            final(self).tracking == old(self).tracking,
            r matches Ok(res) ==> {
                &&& 0 <= res.cell_hor < grid_hor
                &&& 0 <= res.cell_ver < grid_ver
                &&& res.converged == (!spec_is_border_cell(
                    res.cell_hor as int,
                    grid_hor as int,
                    border as int,
                ) && !spec_is_border_cell(res.cell_ver as int, grid_ver as int, border as int))
                &&& !res.converged ==> res.rounds == max_rounds
                &&& !res.hor_border ==> !spec_is_border_cell(
                    res.cell_hor as int,
                    grid_hor as int,
                    border as int,
                )
                &&& !res.ver_border ==> !spec_is_border_cell(
                    res.cell_ver as int,
                    grid_ver as int,
                    border as int,
                )
                &&& 1 <= res.rounds <= max_rounds
                &&& 0 <= res.angle_hor <= old(self).stepper_motor_hor.max_angle
                &&& 0 <= res.angle_ver <= old(self).stepper_motor_ver.max_angle
                &&& -old(self).stepper_motor_hor.step_size
                    < final(self).stepper_motor_hor.current_angle - res.angle_hor
                    < old(self).stepper_motor_hor.step_size
                &&& -old(self).stepper_motor_ver.step_size
                    < final(self).stepper_motor_ver.current_angle - res.angle_ver
                    < old(self).stepper_motor_ver.step_size
                &&& exists|vals: Seq<u32>, bk: int|
                    grid_scan_selection(
                        vals,
                        bk,
                        grid_hor as int,
                        grid_ver as int,
                        corner_low_hor,
                        corner_low_ver,
                        RoundWinner {
                            brightness: res.brightness,
                            angle_hor: res.angle_hor,
                            angle_ver: res.angle_ver,
                            cell_hor: res.cell_hor,
                            cell_ver: res.cell_ver,
                        },
                    )
                &&& exists|center_hor: int, center_ver: int|
                    winner_cell_geometry(
                        RoundWinner {
                            brightness: res.brightness,
                            angle_hor: res.angle_hor,
                            angle_ver: res.angle_ver,
                            cell_hor: res.cell_hor,
                            cell_ver: res.cell_ver,
                        },
                        grid_hor as int,
                        grid_ver as int,
                        old(self).stepper_motor_hor.step_size as int,
                        old(self).stepper_motor_ver.step_size as int,
                        old(self).stepper_motor_hor.max_angle as int,
                        old(self).stepper_motor_ver.max_angle as int,
                        center_hor,
                        center_ver,
                    )
            },
    {
        let mut w = match self.grid_round(
            sensors,
            speed,
            grid_hor,
            grid_ver,
            corner_low_hor,
            corner_low_ver,
        ) {
            Ok(w) => w,
            Err(e) => {
                return Err(e);
            },
        };
        proof {
            assert(winner_cell_geometry(
                w,
                grid_hor as int,
                grid_ver as int,
                old(self).stepper_motor_hor.step_size as int,
                old(self).stepper_motor_ver.step_size as int,
                old(self).stepper_motor_hor.max_angle as int,
                old(self).stepper_motor_ver.max_angle as int,
                old(self).stepper_motor_hor.current_angle as int,
                old(self).stepper_motor_ver.current_angle as int,
            ));
        }
        let mut rounds: u32 = 1;
        let mut hb = crate::search::is_border_cell(w.cell_hor, grid_hor, border);
        let mut vb = crate::search::is_border_cell(w.cell_ver, grid_ver, border);
        let mut hor_border_ever = hb;
        let mut ver_border_ever = vb;
        self.rotate_to_angle(w.angle_ver, w.angle_hor);

        while (hb || vb) && rounds < max_rounds
            invariant
                self.wf(),
                self.stepper_motor_ver.initialized_angles,
                self.stepper_motor_hor.initialized_angles,
                self.same_motor_config(*old(self)),
                self.tracking == old(self).tracking,
                1 <= grid_hor <= 999,
                1 <= grid_ver <= 999,
                1 <= border,
                2 * border + 1 <= grid_hor,
                2 * border + 1 <= grid_ver,
                1 <= rounds <= max_rounds,
                hb == spec_is_border_cell(w.cell_hor as int, grid_hor as int, border as int),
                vb == spec_is_border_cell(w.cell_ver as int, grid_ver as int, border as int),
                hb ==> hor_border_ever,
                vb ==> ver_border_ever,
                0 <= w.cell_hor < grid_hor,
                0 <= w.cell_ver < grid_ver,
                0 <= w.angle_hor <= self.stepper_motor_hor.max_angle,
                0 <= w.angle_ver <= self.stepper_motor_ver.max_angle,
                -self.stepper_motor_hor.step_size < self.stepper_motor_hor.current_angle
                    - w.angle_hor < self.stepper_motor_hor.step_size,
                -self.stepper_motor_ver.step_size < self.stepper_motor_ver.current_angle
                    - w.angle_ver < self.stepper_motor_ver.step_size,
                exists|vals: Seq<u32>, bk: int|
                    grid_scan_selection(
                        vals,
                        bk,
                        grid_hor as int,
                        grid_ver as int,
                        corner_low_hor,
                        corner_low_ver,
                        w,
                    ),
                exists|center_hor: int, center_ver: int|
                    winner_cell_geometry(
                        w,
                        grid_hor as int,
                        grid_ver as int,
                        self.stepper_motor_hor.step_size as int,
                        self.stepper_motor_ver.step_size as int,
                        self.stepper_motor_hor.max_angle as int,
                        self.stepper_motor_ver.max_angle as int,
                        center_hor,
                        center_ver,
                    ),
            decreases max_rounds - rounds,
        {
            let ghost pre_round = *self;
            w =
            match self.grid_round(sensors, speed, grid_hor, grid_ver, corner_low_hor,
                corner_low_ver) {
                Ok(w) => w,
                Err(e) => {
                    return Err(e);
                },
            };
            proof {
                assert(winner_cell_geometry(
                    w,
                    grid_hor as int,
                    grid_ver as int,
                    self.stepper_motor_hor.step_size as int,
                    self.stepper_motor_ver.step_size as int,
                    self.stepper_motor_hor.max_angle as int,
                    self.stepper_motor_ver.max_angle as int,
                    pre_round.stepper_motor_hor.current_angle as int,
                    pre_round.stepper_motor_ver.current_angle as int,
                ));
            }
            rounds = rounds + 1;
            hb = crate::search::is_border_cell(w.cell_hor, grid_hor, border);
            vb = crate::search::is_border_cell(w.cell_ver, grid_ver, border);
            hor_border_ever = hor_border_ever || hb;
            ver_border_ever = ver_border_ever || vb;
            self.rotate_to_angle(w.angle_ver, w.angle_hor);
        }

        Ok(
            GridSearchResult {
                brightness: w.brightness,
                angle_hor: w.angle_hor,
                angle_ver: w.angle_ver,
                cell_hor: w.cell_hor,
                cell_ver: w.cell_ver,
                hor_border: hor_border_ever,
                ver_border: ver_border_ever,
                rounds,
                converged: !hb && !vb,
            },
        )
    }

    /// One tracking iteration: a bounded grid search with the window
    /// sizes and scan corners the session memory currently suggests
    /// (each axis scans from the side its light source is drifting away
    /// from; a zenith hypothesis re-centers the vertical corner), then
    /// the session memory is advanced exactly as `tracking_step` says,
    /// from the pose the search settled on and whether it ever touched
    /// a border.  Returns the adapted sleep interval to wait before the
    /// next iteration.
    pub fn follow_light<S: Sensors>(&mut self, sensors: &mut S) -> (r: Result<
        u32,
        LightTrackingError,
    >)
        requires
            old(self).ready(),
        ensures
            final(self).ready(),
            final(self).same_motor_config(*old(self)),
            r matches Ok(sleep) ==> {
                &&& sleep == final(self).tracking.sleep_interval
                &&& final(self).tracking.last_angle_hor
                    == final(self).stepper_motor_hor.current_angle
                &&& final(self).tracking.last_angle_ver
                    == final(self).stepper_motor_ver.current_angle
                &&& exists|ah: int, av: int, tb: bool|
                    crate::tracking::tracking_step(
                        old(self).tracking,
                        old(self).config,
                        ah,
                        av,
                        tb,
                        final(self).tracking,
                    )
            },
            r matches Err(e) ==> final(self).tracking == old(self).tracking,
    {
        let corner_low_hor = !(self.tracking.dir_hor == Direction::Decreasing);
        let corner_low_ver = if self.tracking.zenith {
            true
        } else {
            !(self.tracking.dir_ver == Direction::Decreasing)
        };
        let grid_hor = self.tracking.grid_hor;
        let grid_ver = self.tracking.grid_ver;
        let border = self.config.border;

        let res = match self.search_scope(
            sensors,
            Speed::Low,
            grid_hor,
            grid_ver,
            border,
            SEARCH_MAX_ROUNDS,
            corner_low_hor,
            corner_low_ver,
        ) {
            Ok(res) => res,
            Err(e) => {
                return Err(e);
            },
        };
        let touched_border = res.hor_border || res.ver_border;

        let new_angle_hor = self.stepper_motor_hor.current_angle();
        let new_angle_ver = self.stepper_motor_ver.current_angle();
        let cfg = self.config;
        self.tracking.update_after_search(&cfg, new_angle_hor, new_angle_ver, touched_border);
        Ok(self.tracking.sleep_interval)
    }
}

} // verus!
