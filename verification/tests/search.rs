use suntracker::lighttracking::{LightTrackingError, MotorAngles, Platform, Sensors};
use suntracker::motor::{MotorDriver, Speed, StepperMotor};
use suntracker::tracking::{Direction, TrackingConfig};

struct SilentDriver;

impl MotorDriver for SilentDriver {
    fn set_phase(&mut self, _in1: bool, _in2: bool, _in3: bool, _in4: bool, _delay_micros: u64) {}
}

/// A static brightness field over the pose space: a single peak at
/// `(peak_hor, peak_ver)` with brightness falling off by one per angle
/// unit of distance, on a flat base.
struct FieldSensors {
    peak_hor: i32,
    peak_ver: i32,
    peak_value: u32,
    reads: u32,
}

impl Sensors for FieldSensors {
    fn read_photoresistor(&mut self, at: &MotorAngles) -> Result<u32, LightTrackingError> {
        self.reads += 1;
        let d = (at.motor_hor - self.peak_hor).abs() + (at.motor_ver - self.peak_ver).abs();
        let v = self.peak_value as i32 - d;
        Ok(if v > 0 { v as u32 } else { 0 })
    }

    fn read_ir(&mut self, _at: &MotorAngles) -> Result<u32, LightTrackingError> {
        Ok(3000)
    }

    fn read_button(&mut self) -> Result<u32, LightTrackingError> {
        Ok(3000)
    }
}

/// A band of light around horizontal angle 53, flat everywhere else,
/// independent of the vertical axis.
struct BandSensors;

impl Sensors for BandSensors {
    fn read_photoresistor(&mut self, at: &MotorAngles) -> Result<u32, LightTrackingError> {
        if (at.motor_hor - 53).abs() <= 5 {
            Ok(100)
        } else {
            Ok(10)
        }
    }

    fn read_ir(&mut self, _at: &MotorAngles) -> Result<u32, LightTrackingError> {
        Ok(3000)
    }

    fn read_button(&mut self) -> Result<u32, LightTrackingError> {
        Ok(3000)
    }
}

/// Fails every brightness read.
struct BrokenSensors;

impl Sensors for BrokenSensors {
    fn read_photoresistor(&mut self, _at: &MotorAngles) -> Result<u32, LightTrackingError> {
        Err(LightTrackingError::ADCFailed)
    }

    fn read_ir(&mut self, _at: &MotorAngles) -> Result<u32, LightTrackingError> {
        Err(LightTrackingError::ADCFailed)
    }

    fn read_button(&mut self) -> Result<u32, LightTrackingError> {
        Err(LightTrackingError::ADCFailed)
    }
}

fn config() -> TrackingConfig {
    TrackingConfig {
        grid_min: 3,
        grid_max: 9,
        motion_threshold: 2,
        zenith_threshold: 2,
        no_motion_limit: 5,
        sunset_threshold: 100,
        sleep_min: 2,
        sleep_max: 15,
        border: 1,
    }
}

fn platform(
    hor_max: i32,
    hor_step: i32,
    ver_max: i32,
    ver_step: i32,
) -> Platform<SilentDriver, SilentDriver> {
    let ver = StepperMotor::new(SilentDriver, ver_max, ver_step, 0, true);
    let hor = StepperMotor::new(SilentDriver, hor_max, hor_step, 0, true);
    Platform::new(ver, hor, config())
}

#[test]
fn full_scan_converges_to_the_single_peak() {
    // A single global maximum at (60, 20): the scan must end within
    // one step of it on both axes — here exactly on it, since the
    // peak sits on the step grid.
    let mut p = platform(100, 10, 40, 10);
    let mut s = FieldSensors { peak_hor: 60, peak_ver: 20, peak_value: 200, reads: 0 };
    p.find_best_position(&mut s).unwrap();
    let at = p.get_current_angles();
    assert_eq!(at.motor_hor, 60);
    assert_eq!(at.motor_ver, 20);
}

#[test]
fn full_scan_band_at_53_lands_on_50_and_ties_keep_the_incumbent() {
    // max_angle 100, step 10, light band around device angle 53: only
    // the sample at 50 sees the band, so the scan must stop there.
    // Vertically the field is flat, so no vertical candidate strictly
    // beats the carried incumbent and the first-found winner stays.
    let mut p = platform(100, 10, 40, 10);
    let mut s = BandSensors;
    p.find_best_position(&mut s).unwrap();
    let at = p.get_current_angles();
    assert_eq!(at.motor_hor, 50);
    assert_eq!(at.motor_ver, 0);
}

#[test]
fn full_scan_twice_yields_the_same_pose() {
    // Idempotence under a static field: the second scan re-walks the
    // same positions and selects the same pair.
    let mut p = platform(100, 10, 40, 10);
    let mut s = FieldSensors { peak_hor: 60, peak_ver: 20, peak_value: 200, reads: 0 };
    p.find_best_position(&mut s).unwrap();
    let first = p.get_current_angles();
    p.find_best_position(&mut s).unwrap();
    let second = p.get_current_angles();
    assert_eq!(first.motor_hor, second.motor_hor);
    assert_eq!(first.motor_ver, second.motor_ver);
}

#[test]
fn full_scan_is_deterministic_across_platforms() {
    let mut p1 = platform(100, 10, 40, 10);
    let mut p2 = platform(100, 10, 40, 10);
    let mut s1 = FieldSensors { peak_hor: 30, peak_ver: 10, peak_value: 500, reads: 0 };
    let mut s2 = FieldSensors { peak_hor: 30, peak_ver: 10, peak_value: 500, reads: 0 };
    p1.find_best_position(&mut s1).unwrap();
    p2.find_best_position(&mut s2).unwrap();
    assert_eq!(p1.get_current_angles(), p2.get_current_angles());
}

#[test]
fn full_scan_lands_within_one_step_of_an_off_grid_peak() {
    // The true maximum sits between sample points, at (53, 17): with a
    // step of 10 the scan must end at the nearest sampled position on
    // each axis, strictly within one step of the peak.
    let mut p = platform(100, 10, 40, 10);
    let mut s = FieldSensors { peak_hor: 53, peak_ver: 17, peak_value: 500, reads: 0 };
    p.find_best_position(&mut s).unwrap();
    let at = p.get_current_angles();
    assert_eq!(at.motor_hor, 50);
    assert_eq!(at.motor_ver, 20);
    assert!((at.motor_hor - 53).abs() < 10);
    assert!((at.motor_ver - 17).abs() < 10);
}

#[test]
fn full_scan_propagates_a_sensor_failure() {
    let mut p = platform(100, 10, 40, 10);
    let mut s = BrokenSensors;
    assert_eq!(p.find_best_position(&mut s), Err(LightTrackingError::ADCFailed));
}

#[test]
fn grid_search_interior_winner_converges_in_one_round_off_the_edge() {
    // The peak sits exactly at the window center, so the winner is
    // interior: the search converges in one round, neither border flag
    // is raised, and the winning cell is not an edge cell.
    let mut p = platform(100, 1, 100, 1);
    p.rotate_to_angle(50, 50);
    let mut s = FieldSensors { peak_hor: 50, peak_ver: 50, peak_value: 200, reads: 0 };
    let res = p.search_scope(&mut s, Speed::High, 5, 5, 1, 8, true, true).unwrap();
    assert!(res.converged);
    assert_eq!(res.rounds, 1);
    assert!(!res.hor_border);
    assert!(!res.ver_border);
    assert!(res.cell_hor != 0 && res.cell_hor != 4);
    assert!(res.cell_ver != 0 && res.cell_ver != 4);
    assert_eq!(res.angle_hor, 50);
    assert_eq!(res.angle_ver, 50);
}

#[test]
fn grid_search_chases_a_peak_outside_the_window() {
    // grid 5, border 1, peak well outside the first window: every
    // early round wins at the window edge, so the border flag is
    // raised and the search re-runs before settling on the peak.
    let mut p = platform(100, 1, 100, 1);
    p.rotate_to_angle(20, 40);
    let mut s = FieldSensors { peak_hor: 50, peak_ver: 20, peak_value: 500, reads: 0 };
    let res = p.search_scope(&mut s, Speed::High, 5, 5, 1, 16, true, true).unwrap();
    assert!(res.hor_border);
    assert!(res.rounds >= 2);
    assert!(res.converged);
    assert_eq!(res.angle_hor, 50);
    assert_eq!(res.angle_ver, 20);
}

#[test]
fn grid_search_reports_an_exhausted_round_budget_as_unconverged() {
    // The peak is far outside the window and only one round is
    // allowed: the winner stays on the border, so the search returns
    // unconverged after exactly its budget.
    let mut p = platform(100, 1, 100, 1);
    p.rotate_to_angle(20, 40);
    let mut s = FieldSensors { peak_hor: 90, peak_ver: 20, peak_value: 500, reads: 0 };
    let res = p.search_scope(&mut s, Speed::High, 5, 5, 1, 1, true, true).unwrap();
    assert!(!res.converged);
    assert_eq!(res.rounds, 1);
    assert!(res.hor_border);
}

#[test]
fn grid_search_flags_a_drifting_target_and_reruns() {
    // grid 5, border 1, and a target drifting two cells away from the
    // window center per round (one round samples the 25 cells): the
    // winner keeps landing on the border, so the flag is raised and
    // the search re-runs before returning.
    struct DriftingSensors {
        reads: u32,
    }
    impl Sensors for DriftingSensors {
        fn read_photoresistor(&mut self, at: &MotorAngles) -> Result<u32, LightTrackingError> {
            let peak_hor = 52 + 2 * (self.reads as i32 / 25);
            self.reads += 1;
            let d = (at.motor_hor - peak_hor).abs() + (at.motor_ver - 20).abs();
            Ok((500 - d.min(480)) as u32)
        }
        fn read_ir(&mut self, _at: &MotorAngles) -> Result<u32, LightTrackingError> {
            Ok(3000)
        }
        fn read_button(&mut self) -> Result<u32, LightTrackingError> {
            Ok(3000)
        }
    }
    let mut p = platform(100, 1, 100, 1);
    p.rotate_to_angle(20, 50);
    let mut s = DriftingSensors { reads: 0 };
    let res = p.search_scope(&mut s, Speed::High, 5, 5, 1, 8, true, true).unwrap();
    assert!(res.hor_border);
    assert!(res.rounds >= 2);
}

#[test]
fn init_motors_gives_up_when_the_limit_never_fires() {
    struct DeafIr;
    impl Sensors for DeafIr {
        fn read_photoresistor(&mut self, _at: &MotorAngles) -> Result<u32, LightTrackingError> {
            Ok(0)
        }
        fn read_ir(&mut self, _at: &MotorAngles) -> Result<u32, LightTrackingError> {
            Ok(3000)
        }
        fn read_button(&mut self) -> Result<u32, LightTrackingError> {
            Ok(3000)
        }
    }
    let ver = StepperMotor::new(SilentDriver, 40, 10, 0, true);
    let hor = StepperMotor::new(SilentDriver, 100, 10, 1, false);
    let mut p = Platform::new(ver, hor, config());
    assert_eq!(p.init_motors(&mut DeafIr), Err(LightTrackingError::LimitNotFound));
}

#[test]
fn follow_light_updates_the_session_memory() {
    let mut p = platform(100, 1, 100, 1);
    p.rotate_to_angle(20, 20);
    // Put the session reference where the platform now stands.
    p.tracking.last_angle_hor = 20;
    p.tracking.last_angle_ver = 20;
    let mut s = FieldSensors { peak_hor: 26, peak_ver: 20, peak_value: 500, reads: 0 };
    let sleep = p.follow_light(&mut s).unwrap();
    assert_eq!(sleep, p.tracking.sleep_interval);
    let at = p.get_current_angles();
    assert_eq!(at.motor_hor, 26);
    assert_eq!(at.motor_ver, 20);
    // Horizontal drift of 6 exceeds the threshold of 2.
    assert_eq!(p.tracking.dir_hor, Direction::Increasing);
    assert_eq!(p.tracking.no_motion_count, 0);
    assert!(p.tracking.zenith);
}

#[test]
fn init_motors_zeroes_the_horizontal_axis_when_the_limit_fires() {
    struct CountdownIr {
        until: u32,
    }
    impl Sensors for CountdownIr {
        fn read_photoresistor(&mut self, _at: &MotorAngles) -> Result<u32, LightTrackingError> {
            Ok(0)
        }
        fn read_ir(&mut self, _at: &MotorAngles) -> Result<u32, LightTrackingError> {
            if self.until == 0 {
                Ok(1000)
            } else {
                self.until -= 1;
                Ok(3000)
            }
        }
        fn read_button(&mut self) -> Result<u32, LightTrackingError> {
            Ok(3000)
        }
    }
    let ver = StepperMotor::new(SilentDriver, 40, 10, 0, true);
    let hor = StepperMotor::new(SilentDriver, 100, 10, 1, false);
    let mut p = Platform::new(ver, hor, config());
    let mut s = CountdownIr { until: 12 };
    p.init_motors(&mut s).unwrap();
    assert_eq!(p.get_current_angles().motor_hor, 0);
}

#[test]
fn reset_if_button_pressed_returns_home_only_on_a_press() {
    struct Button {
        level: u32,
    }
    impl Sensors for Button {
        fn read_photoresistor(&mut self, _at: &MotorAngles) -> Result<u32, LightTrackingError> {
            Ok(0)
        }
        fn read_ir(&mut self, _at: &MotorAngles) -> Result<u32, LightTrackingError> {
            Ok(3000)
        }
        fn read_button(&mut self) -> Result<u32, LightTrackingError> {
            Ok(self.level)
        }
    }
    let mut p = platform(100, 10, 40, 10);
    p.rotate_to_angle(20, 60);
    p.tracking.dir_hor = Direction::Increasing;
    assert_eq!(p.reset_if_button_pressed(&mut Button { level: 3000 }), Ok(false));
    assert_eq!(p.get_current_angles().motor_hor, 60);
    assert_eq!(p.tracking.dir_hor, Direction::Increasing);
    assert_eq!(p.reset_if_button_pressed(&mut Button { level: 100 }), Ok(true));
    assert_eq!(p.get_current_angles().motor_hor, 0);
    assert_eq!(p.get_current_angles().motor_ver, 0);
    // Going home also clears the direction hypothesis.
    assert_eq!(p.tracking.dir_hor, Direction::Unknown);
}

#[test]
fn a_new_platform_starts_with_a_fresh_session_memory() {
    let ver = StepperMotor::new(SilentDriver, 40, 10, 25, true);
    let hor = StepperMotor::new(SilentDriver, 100, 10, 35, true);
    let p = Platform::new(ver, hor, config());
    assert_eq!(p.tracking.last_angle_hor, 35);
    assert_eq!(p.tracking.last_angle_ver, 25);
    assert_eq!(p.tracking.dir_hor, Direction::Unknown);
    assert_eq!(p.tracking.dir_ver, Direction::Unknown);
    assert_eq!(p.tracking.grid_hor, 9);
    assert_eq!(p.tracking.grid_ver, 9);
    assert_eq!(p.tracking.sleep_interval, 2);
    assert_eq!(p.tracking.no_motion_count, 0);
    assert!(!p.tracking.zenith);
}

#[test]
fn test_movement_ends_near_the_zero_reference() {
    // A thousand steps cover both travels, so after the out-and-back
    // exercise each axis ends strictly under one step from zero.
    let ver = StepperMotor::new(SilentDriver, 40, 10, 25, true);
    let hor = StepperMotor::new(SilentDriver, 100, 10, 35, true);
    let mut p = Platform::new(ver, hor, config());
    p.test_movement();
    let at = p.get_current_angles();
    assert!(0 <= at.motor_hor && at.motor_hor < 10);
    assert!(0 <= at.motor_ver && at.motor_ver < 10);
}

#[test]
fn motor_angles_add_and_sub_are_component_wise() {
    let a = MotorAngles { motor_hor: 10, motor_ver: -4 };
    let b = MotorAngles { motor_hor: -3, motor_ver: 9 };
    let s = a.add(&b);
    assert_eq!(s.motor_hor, 7);
    assert_eq!(s.motor_ver, 5);
    let d = a.sub(&b);
    assert_eq!(d.motor_hor, 13);
    assert_eq!(d.motor_ver, -13);
}
