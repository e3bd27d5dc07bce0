//! One stepper-driven rotational axis with bounded travel.
//!
//! The axis keeps a current-angle estimate in signed integer step units.
//! Direction convention, fixed once for the whole crate: "left" increases
//! the angle, "right" decreases it.  The estimate is only advanced while
//! the axis is initialized; before initialization the motor still turns,
//! but its absolute position is unknown and the counter stays put.
//!
//! Stepping is open loop: a stall or missed step is undetectable here, so
//! every guarantee is about the estimate, under the calibration assumption
//! that `step_size` and `max_angle` match the real gearing.

use vstd::prelude::*;

verus! {

/// Inter-phase delay selection for a rotation: a fixed configuration
/// table, lower delay meaning faster rotation with less torque.
#[derive(Clone, Copy, Debug, PartialEq, Eq, Structural)]
pub enum Speed {
    Low,
    LowMedium,
    Medium,
    HighMedium,
    High,
}

impl Speed {
    /// The inter-phase delay of this speed, in microseconds.
    pub open spec fn spec_delay_micros(self) -> u64 {
        match self {
            Speed::Low => 10000,
            Speed::LowMedium => 8000,
            Speed::Medium => 5000,
            Speed::HighMedium => 2000,
            Speed::High => 1000,
        }
    }

    /// Returns the configured inter-phase delay in microseconds.
    pub fn delay_micros(self) -> (r: u64)
        ensures
            r == self.spec_delay_micros(),
    {
        match self {
            Speed::Low => 10000,
            Speed::LowMedium => 8000,
            Speed::Medium => 5000,
            Speed::HighMedium => 2000,
            Speed::High => 1000,
        }
    }
}

/// The angle estimate after one guarded single step of an initialized
/// axis: up by `ss` for a left step that stays within travel, down by
/// `ss` for a right step that does, and unchanged for a refused step or
/// an uninitialized axis.
pub open spec fn spec_step_angle(
    current: int,
    maxa: int,
    ss: int,
    initialized: bool,
    left: bool,
) -> int {
    if !initialized {
        current
    } else if left {
        if current < maxa && current + ss <= maxa {
            current + ss
        } else {
            current
        }
    } else {
        if current > 0 && current - ss >= 0 {
            current - ss
        } else {
            current
        }
    }
}

/// The angle estimate after a whole history of guarded single steps,
/// one direction choice per entry.
pub open spec fn spec_run_steps(
    current: int,
    maxa: int,
    ss: int,
    initialized: bool,
    dirs: Seq<bool>,
) -> int
    decreases dirs.len(),
{
    if dirs.len() == 0 {
        current
    } else {
        spec_run_steps(
            spec_step_angle(current, maxa, ss, initialized, dirs[0]),
            maxa,
            ss,
            initialized,
            dirs.drop_first(),
        )
    }
}

/// Clamping over whole histories: starting inside the travel range,
/// any sequence of single steps, in any mix of directions, leaves the
/// angle estimate inside `[0, max_angle]`.  Each exec step satisfies
/// `spec_step_angle`, so this induction covers every run of the axis.
pub proof fn lemma_steps_stay_clamped(
    current: int,
    maxa: int,
    ss: int,
    initialized: bool,
    dirs: Seq<bool>,
)
    requires
        0 <= current <= maxa,
        1 <= ss,
    ensures
        0 <= spec_run_steps(current, maxa, ss, initialized, dirs) <= maxa,
    decreases dirs.len(),
{
    if dirs.len() > 0 {
        lemma_steps_stay_clamped(
            spec_step_angle(current, maxa, ss, initialized, dirs[0]),
            maxa,
            ss,
            initialized,
            dirs.drop_first(),
        );
    }
}

/// A bounded approach never takes more steps than the travel range
/// holds: `rotate_to_angle` moves exactly one `step_size` per loop
/// iteration and stops under one step from its target, so crossing a
/// distance of `dist` angle units takes `dist / ss` single steps, and
/// inside a travel range of `maxa` units that is never more than the
/// ceiling of `maxa / ss`, itself at most `maxa / ss + 1`.
pub proof fn lemma_rotate_steps_bound(dist: int, ss: int, maxa: int)
    requires
        1 <= ss,
        0 <= dist <= maxa,
    ensures
        dist / ss <= (maxa + ss - 1) / ss,
        (maxa + ss - 1) / ss <= maxa / ss + 1,
{
    vstd::arithmetic::div_mod::lemma_div_is_ordered(dist, maxa + ss - 1, ss);
    vstd::arithmetic::div_mod::lemma_div_is_ordered(maxa + ss - 1, maxa + ss, ss);
    vstd::arithmetic::div_mod::lemma_div_plus_one(maxa, ss);
}

/// The hardware half of one axis: whoever implements it owns the four
/// digital outputs of the stepper coils.  `set_phase` must drive the
/// outputs to the given levels and then hold them for `delay_micros`
/// microseconds.  Nothing is specified about it: all angle bookkeeping
/// stays on the verified side.
pub trait MotorDriver {
    fn set_phase(&mut self, in1: bool, in2: bool, in3: bool, in4: bool, delay_micros: u64);
}

/// One stepper-driven rotational axis with travel bounded to
/// `[0, max_angle]` and a fixed angular `step_size` per discrete
/// actuation.
pub struct StepperMotor<D> {
    pub driver: D,
    pub max_angle: i32,
    pub step_size: i32,
    pub current_angle: i32,
    pub initialized_angles: bool,
}

impl<D: MotorDriver> StepperMotor<D> {
    /// Configuration sanity: the angle estimate sits inside the travel
    /// range, one step covers at least one angle unit, and both the
    /// travel limit and the step stay within a million angle units, so
    /// that every angle computation of the crate fits its integer type.
    pub open spec fn wf(self) -> bool {
        &&& 0 <= self.current_angle <= self.max_angle <= 1000000
        &&& 1 <= self.step_size <= 1000000
    }

    /// One more step toward `angle` would neither cross it nor leave
    /// `[0, max_angle]`.  False whenever the target itself is outside the
    /// travel range, and false once the remaining distance is under one
    /// step: motion guarded by this can never overshoot a target.
    pub open spec fn spec_rotatable_to(self, angle: int) -> bool {
        &&& 0 <= angle <= self.max_angle
        &&& if self.current_angle < angle {
                self.current_angle + self.step_size <= angle
            } else if self.current_angle > angle {
                self.current_angle - self.step_size >= angle
            } else {
                false
            }
    }

    /// A step increasing the angle stays within travel.
    pub open spec fn spec_rotatable_left(self) -> bool {
        self.spec_rotatable_to(self.max_angle as int)
    }

    /// A step decreasing the angle stays within travel.
    pub open spec fn spec_rotatable_right(self) -> bool {
        self.spec_rotatable_to(0)
    }

    /// The scalar configuration and initialization flag are unchanged.
    pub open spec fn same_config(self, other: Self) -> bool {
        &&& self.max_angle == other.max_angle
        &&& self.step_size == other.step_size
        &&& self.initialized_angles == other.initialized_angles
    }

    pub fn new(
        driver: D,
        max_angle: i32,
        step_size: i32,
        current_angle: i32,
        initialized_angles: bool,
    ) -> (r: StepperMotor<D>)
        requires
            0 <= current_angle <= max_angle <= 1000000,
            1 <= step_size <= 1000000,
        ensures
            r.wf(),
            r.max_angle == max_angle,
            r.step_size == step_size,
            r.current_angle == current_angle,
            r.initialized_angles == initialized_angles,
    {
        StepperMotor { driver, max_angle, step_size, current_angle, initialized_angles }
    }

    pub fn max_angle(&self) -> (r: i32)
        ensures
            r == self.max_angle,
    {
        self.max_angle
    }

    pub fn step_size(&self) -> (r: i32)
        ensures
            r == self.step_size,
    {
        self.step_size
    }

    pub fn current_angle(&self) -> (r: i32)
        ensures
            r == self.current_angle,
    {
        self.current_angle
    }

    /// Declares that the axis now physically rests at the zero reference.
    /// The caller must have driven it there (for instance until a
    /// proximity sensor fired); this only resets the bookkeeping.
    pub fn init_angle(&mut self)
        requires
            old(self).wf(),
        ensures
            final(self).wf(),
            final(self).current_angle == 0,
            final(self).initialized_angles,
            final(self).max_angle == old(self).max_angle,
            final(self).step_size == old(self).step_size,
    {
        self.current_angle = 0;
        self.initialized_angles = true;
    }

    /// Whether one more step toward `angle` stays inside travel and does
    /// not cross the target.
    pub fn rotatable_to_angle(&self, angle: i32) -> (r: bool)
        requires
            self.wf(),
        ensures
            r == self.spec_rotatable_to(angle as int),
    {
        if angle < 0 || angle > self.max_angle {
            return false;
        }
        if self.current_angle < angle {
            self.current_angle + self.step_size <= angle
        } else if self.current_angle > angle {
            self.current_angle - self.step_size >= angle
        } else {
            false
        }
    }

    pub fn rotatable_right(&self) -> (r: bool)
        requires
            self.wf(),
        ensures
            r == self.spec_rotatable_right(),
    {
        self.rotatable_to_angle(0)
    }

    pub fn rotatable_left(&self) -> (r: bool)
        requires
            self.wf(),
        ensures
            r == self.spec_rotatable_left(),
    {
        self.rotatable_to_angle(self.max_angle)
    }

    /// Drives the four coil outputs to one phase of the half-step pattern
    /// and holds them for the delay of `motor_speed`.  Pure hardware side
    /// effect: the angle bookkeeping is untouched.
    pub fn set_motor(&mut self, in1: bool, in2: bool, in3: bool, in4: bool, motor_speed: Speed)
        ensures
            final(self).max_angle == old(self).max_angle,
            final(self).step_size == old(self).step_size,
            final(self).current_angle == old(self).current_angle,
            final(self).initialized_angles == old(self).initialized_angles,
    {
        let delay = motor_speed.delay_micros();
        self.driver.set_phase(in1, in2, in3, in4, delay);
    }

    /// De-energizes all four coils (idle state), with no delay and no
    /// effect on the bookkeeping.
    pub fn stop_motor(&mut self)
        ensures
            final(self).max_angle == old(self).max_angle,
            final(self).step_size == old(self).step_size,
            final(self).current_angle == old(self).current_angle,
            final(self).initialized_angles == old(self).initialized_angles,
    {
        self.driver.set_phase(false, false, false, false, 0);
    }

    /// One discrete actuation decreasing the angle: the eight half-step
    /// phases in right-rotation order, then the estimate moves down by one
    /// `step_size` if the axis is initialized.  A no-op (angle unchanged,
    /// coils untouched) when a right step would leave the travel range.
    pub fn rotate_right(&mut self, motor_speed: Speed) -> (r: i32)
        requires
            old(self).wf(),
        ensures
            final(self).wf(),
            old(self).same_config(*final(self)),
            r == final(self).current_angle,
            old(self).spec_rotatable_right() && old(self).initialized_angles
                ==> final(self).current_angle == old(self).current_angle - old(self).step_size,
            !(old(self).spec_rotatable_right() && old(self).initialized_angles)
                ==> final(self).current_angle == old(self).current_angle,
    {
        if !self.rotatable_right() {
            return self.current_angle;
        }
        self.set_motor(false, false, false, true, motor_speed);
        self.set_motor(false, false, true, true, motor_speed);
        self.set_motor(false, false, true, false, motor_speed);
        self.set_motor(false, true, true, false, motor_speed);
        self.set_motor(false, true, false, false, motor_speed);
        self.set_motor(true, true, false, false, motor_speed);
        self.set_motor(true, false, false, false, motor_speed);
        self.set_motor(true, false, false, true, motor_speed);
        if self.initialized_angles {
            self.current_angle = self.current_angle - self.step_size;
        }
        self.current_angle
    }

    /// One discrete actuation increasing the angle: the eight half-step
    /// phases in left-rotation order (the reverse of the right order),
    /// then the estimate moves up by one `step_size` if the axis is
    /// initialized.  A no-op when a left step would leave the travel
    /// range.
    pub fn rotate_left(&mut self, motor_speed: Speed) -> (r: i32)
        requires
            old(self).wf(),
        ensures
            final(self).wf(),
            old(self).same_config(*final(self)),
            r == final(self).current_angle,
            old(self).spec_rotatable_left() && old(self).initialized_angles
                ==> final(self).current_angle == old(self).current_angle + old(self).step_size,
            !(old(self).spec_rotatable_left() && old(self).initialized_angles)
                ==> final(self).current_angle == old(self).current_angle,
    {
        if !self.rotatable_left() {
            return self.current_angle;
        }
        self.set_motor(true, false, false, false, motor_speed);
        self.set_motor(true, true, false, false, motor_speed);
        self.set_motor(false, true, false, false, motor_speed);
        self.set_motor(false, true, true, false, motor_speed);
        self.set_motor(false, false, true, false, motor_speed);
        self.set_motor(false, false, true, true, motor_speed);
        self.set_motor(false, false, false, true, motor_speed);
        self.set_motor(true, false, false, true, motor_speed);
        if self.initialized_angles {
            self.current_angle = self.current_angle + self.step_size;
        }
        self.current_angle
    }

    /// One step in the direction selected by `left` (left increases the
    /// angle).
    #[inline]
    pub fn rotate_left_right(&mut self, motor_speed: Speed, left: bool) -> (r: i32)
        requires
            old(self).wf(),
        ensures
            final(self).wf(),
            old(self).same_config(*final(self)),
            r == final(self).current_angle,
            left && old(self).spec_rotatable_left() && old(self).initialized_angles
                ==> final(self).current_angle == old(self).current_angle + old(self).step_size,
            !left && old(self).spec_rotatable_right() && old(self).initialized_angles
                ==> final(self).current_angle == old(self).current_angle - old(self).step_size,
            !((if left { old(self).spec_rotatable_left() } else { old(self).spec_rotatable_right() })
                    && old(self).initialized_angles)
                ==> final(self).current_angle == old(self).current_angle,
            final(self).current_angle == spec_step_angle(
                old(self).current_angle as int,
                old(self).max_angle as int,
                old(self).step_size as int,
                old(self).initialized_angles,
                left,
            ),
    {
        if left {
            self.rotate_left(motor_speed)
        } else {
            self.rotate_right(motor_speed)
        }
    }

    /// One step toward `angle` if that is possible without crossing it,
    /// otherwise a no-op returning the unchanged angle.
    pub fn rotate_single_step_to_angle(&mut self, motor_speed: Speed, angle: i32) -> (r: i32)
        requires
            old(self).wf(),
        ensures
            final(self).wf(),
            old(self).same_config(*final(self)),
            r == final(self).current_angle,
            old(self).spec_rotatable_to(angle as int) && old(self).initialized_angles
                ==> final(self).current_angle == (
                    if old(self).current_angle < angle {
                        old(self).current_angle + old(self).step_size
                    } else {
                        old(self).current_angle - old(self).step_size
                    }
                ),
            !(old(self).spec_rotatable_to(angle as int) && old(self).initialized_angles)
                ==> final(self).current_angle == old(self).current_angle,
    {
        if !self.rotatable_to_angle(angle) {
            return self.current_angle;
        }
        if self.current_angle > angle {
            self.rotate_right(motor_speed)
        } else {
            self.rotate_left(motor_speed)
        }
    }

    /// Steps toward `angle` until one more step would cross it or leave
    /// the travel range, and returns the final angle estimate.  For a
    /// target inside `[0, max_angle]` the axis ends on its own side of the
    /// target, strictly less than one `step_size` away, having moved by a
    /// whole number of steps; a target outside the range leaves the axis
    /// where it was.
    pub fn rotate_to_angle(&mut self, motor_speed: Speed, angle: i32) -> (r: i32)
        requires
            old(self).wf(),
            old(self).initialized_angles,
        ensures
            final(self).wf(),
            old(self).same_config(*final(self)),
            r == final(self).current_angle,
            !(0 <= angle <= old(self).max_angle)
                ==> final(self).current_angle == old(self).current_angle,
            0 <= angle <= old(self).max_angle && old(self).current_angle <= angle ==> {
                &&& old(self).current_angle <= final(self).current_angle <= angle
                &&& angle - final(self).current_angle < old(self).step_size
                &&& (final(self).current_angle - old(self).current_angle) % (
                    old(self).step_size as int) == 0
            },
            0 <= angle <= old(self).max_angle && old(self).current_angle >= angle ==> {
                &&& angle <= final(self).current_angle <= old(self).current_angle
                &&& final(self).current_angle - angle < old(self).step_size
                &&& (old(self).current_angle - final(self).current_angle) % (
                    old(self).step_size as int) == 0
            },
    {
        let ghost start = *self;
        proof {
            vstd::arithmetic::div_mod::lemma_mod_multiples_basic(0, start.step_size as int);
        }
        while self.rotatable_to_angle(angle)
            invariant
                self.wf(),
                self.initialized_angles,
                start.same_config(*self),
                start.wf(),
                !(0 <= angle <= start.max_angle) ==> self.current_angle == start.current_angle,
                (0 <= angle <= start.max_angle && start.current_angle <= angle) ==> (
                    start.current_angle <= self.current_angle <= angle
                ),
                (0 <= angle <= start.max_angle && start.current_angle <= angle) ==> (
                    (self.current_angle - start.current_angle) % (start.step_size as int) == 0
                ),
                (0 <= angle <= start.max_angle && start.current_angle >= angle) ==> (
                    angle <= self.current_angle <= start.current_angle
                ),
                (0 <= angle <= start.max_angle && start.current_angle >= angle) ==> (
                    (start.current_angle - self.current_angle) % (start.step_size as int) == 0
                ),
            decreases
                if self.current_angle < angle {
                    angle - self.current_angle
                } else {
                    self.current_angle - angle
                },
        {
            let ghost prev = *self;
            self.rotate_single_step_to_angle(motor_speed, angle);
            proof {
                let ss = start.step_size as int;
                if start.current_angle <= angle {
                    vstd::arithmetic::div_mod::lemma_mod_add_multiples_vanish(
                        prev.current_angle - start.current_angle,
                        ss,
                    );
                } else {
                    vstd::arithmetic::div_mod::lemma_mod_add_multiples_vanish(
                        start.current_angle - prev.current_angle,
                        ss,
                    );
                }
            }
        }
        self.current_angle
    }
}

} // verus!
