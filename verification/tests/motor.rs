use suntracker::motor::{MotorDriver, Speed, StepperMotor};

struct CountingDriver {
    phases: u32,
}

impl MotorDriver for CountingDriver {
    fn set_phase(&mut self, _in1: bool, _in2: bool, _in3: bool, _in4: bool, _delay_micros: u64) {
        self.phases += 1;
    }
}

fn motor(max_angle: i32, step_size: i32, current_angle: i32, initialized: bool) -> StepperMotor<CountingDriver> {
    StepperMotor::new(
        CountingDriver { phases: 0 },
        max_angle,
        step_size,
        current_angle,
        initialized,
    )
}

#[test]
fn speed_delays_match_the_configuration_table() {
    assert_eq!(Speed::Low.delay_micros(), 10000);
    assert_eq!(Speed::LowMedium.delay_micros(), 8000);
    assert_eq!(Speed::Medium.delay_micros(), 5000);
    assert_eq!(Speed::HighMedium.delay_micros(), 2000);
    assert_eq!(Speed::High.delay_micros(), 1000);
}

#[test]
fn getters_report_the_configuration() {
    let m = motor(100, 10, 30, true);
    assert_eq!(m.max_angle(), 100);
    assert_eq!(m.step_size(), 10);
    assert_eq!(m.current_angle(), 30);
}

#[test]
fn init_angle_declares_the_zero_reference() {
    let mut m = motor(100, 10, 7, false);
    m.init_angle();
    assert_eq!(m.current_angle(), 0);
    let r = m.rotate_left(Speed::High);
    assert_eq!(r, 10);
}

#[test]
fn rotatable_guards_the_travel_limits() {
    let m = motor(100, 10, 0, true);
    assert!(m.rotatable_left());
    assert!(!m.rotatable_right());
    assert!(m.rotatable_to_angle(10));
    assert!(!m.rotatable_to_angle(5));
    assert!(!m.rotatable_to_angle(0));
    assert!(!m.rotatable_to_angle(-10));
    assert!(!m.rotatable_to_angle(110));
    let m = motor(100, 10, 100, true);
    assert!(!m.rotatable_left());
    assert!(m.rotatable_right());
}

#[test]
fn single_steps_move_by_one_step_size() {
    let mut m = motor(100, 10, 50, true);
    assert_eq!(m.rotate_left(Speed::High), 60);
    assert_eq!(m.rotate_right(Speed::High), 50);
    assert_eq!(m.rotate_left_right(Speed::High, true), 60);
    assert_eq!(m.rotate_left_right(Speed::High, false), 50);
    assert_eq!(m.rotate_single_step_to_angle(Speed::High, 100), 60);
    assert_eq!(m.rotate_single_step_to_angle(Speed::High, 0), 50);
}

#[test]
fn steps_at_the_limits_are_no_ops() {
    let mut m = motor(20, 10, 20, true);
    assert_eq!(m.rotate_left(Speed::High), 20);
    let mut m = motor(20, 10, 0, true);
    assert_eq!(m.rotate_right(Speed::High), 0);
    // No coil phases are driven for a refused step.
    assert_eq!(m.driver.phases, 0);
}

#[test]
fn uninitialized_stepping_turns_without_advancing_the_estimate() {
    let mut m = motor(100, 1, 1, false);
    let before = m.driver.phases;
    assert_eq!(m.rotate_right(Speed::High), 1);
    assert_eq!(m.current_angle(), 1);
    // The motor still physically turned: eight half-step phases.
    assert_eq!(m.driver.phases, before + 8);
}

#[test]
fn clamping_holds_under_any_mix_of_steps() {
    // An adversarial mix of left/right steps never leaves [0, max].
    let mut m = motor(50, 10, 20, true);
    for i in 0..200u32 {
        let left = (i * i + i / 3) % 3 != 0;
        m.rotate_left_right(Speed::High, left);
        let a = m.current_angle();
        assert!(0 <= a && a <= 50);
    }
}

#[test]
fn rotate_to_angle_stops_under_one_step_from_the_target() {
    let mut m = motor(100, 10, 0, true);
    let r = m.rotate_to_angle(Speed::High, 95);
    assert_eq!(r, 90);
    assert_eq!(m.current_angle(), 90);
    assert!((95 - r).abs() < 10);

    let r = m.rotate_to_angle(Speed::High, 12);
    assert_eq!(r, 20);
    assert!((12i32 - r).abs() < 10);

    let r = m.rotate_to_angle(Speed::High, 0);
    assert_eq!(r, 0);
}

#[test]
fn rotate_to_angle_outside_travel_does_not_move() {
    let mut m = motor(100, 10, 40, true);
    assert_eq!(m.rotate_to_angle(Speed::High, -5), 40);
    assert_eq!(m.rotate_to_angle(Speed::High, 101), 40);
}

#[test]
fn rotate_to_angle_step_count_stays_under_the_ceiling_bound() {
    // Full travel of max 100 in steps of 10: at most ceil(100/10) + 1
    // single steps, each of which drives eight coil phases.
    let mut m = motor(100, 10, 0, true);
    m.rotate_to_angle(Speed::High, 100);
    let steps = m.driver.phases / 8;
    assert_eq!(m.driver.phases % 8, 0);
    assert!(steps <= 100 / 10 + 1);
    assert_eq!(m.current_angle(), 100);
}

#[test]
fn stop_motor_idles_the_coils_without_moving() {
    let mut m = motor(100, 10, 50, true);
    let before = m.driver.phases;
    m.stop_motor();
    assert_eq!(m.driver.phases, before + 1);
    assert_eq!(m.current_angle(), 50);
}
