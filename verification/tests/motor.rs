use self_balancing_robot2::gpio_utils::{Level, OutputToggle};
use self_balancing_robot2::motor::stepper::{adaptive_delay, delay_iterations, microsteps_per_revolution, Motion, StepperMotor};

#[test]
fn new_motor_defaults() {
    let m = StepperMotor::new();
    assert!(m.direction);
    assert_eq!(m.get_position(), 0);
    assert_eq!(m.motion(), Motion::Stopped);
    assert_eq!(m.min_step_delay_micros, 1000);
    assert_eq!(m.pulse_iterations(), 10);
    assert!(!m.should_step(1_000_000));
}

#[test]
fn steps_follow_direction() {
    let mut m = StepperMotor::new();
    m.record_step();
    m.record_step();
    assert_eq!(m.get_position(), 2);
    m.set_direction(false);
    m.record_step();
    assert_eq!(m.get_position(), 1);
    m.set_position(-7);
    m.record_step();
    assert_eq!(m.get_position(), -8);
}

#[test]
fn speed_sets_step_timing() {
    let mut m = StepperMotor::new();
    m.apply_speed(Motion::Forward, 40);
    assert_eq!(m.min_step_delay_micros, 100);
    m.apply_speed(Motion::Reverse, 2500);
    assert_eq!(m.min_step_delay_micros, 2500);
    m.apply_speed(Motion::Stopped, 7);
    assert_eq!(m.min_step_delay_micros, 2500);
    assert_eq!(m.motion(), Motion::Stopped);
    m.apply_speed(Motion::Forward, 2500);
    m.update_last_step_time(10_000);
    assert!(!m.should_step(12_499));
    assert!(m.should_step(12_500));
}

#[test]
fn steps_per_move_are_capped() {
    assert_eq!(StepperMotor::steps_to_take(3), 3);
    assert_eq!(StepperMotor::steps_to_take(-3), 3);
    assert_eq!(StepperMotor::steps_to_take(12), 5);
    assert_eq!(StepperMotor::steps_to_take(-12), 5);
    assert_eq!(StepperMotor::steps_to_take(0), 0);
    assert_eq!(StepperMotor::steps_to_take(i32::MAX), 5);
}

#[test]
fn step_toward_target() {
    let mut m = StepperMotor::new();
    m.set_position(10);
    assert_eq!(m.step_toward(20), 1);
    assert_eq!(m.step_toward(-20), -1);
    assert_eq!(m.step_toward(10), 0);
}

#[test]
fn pulse_width_only_lengthens_delay() {
    let mut m = StepperMotor::new();
    m.set_min_pulse_width(5000);
    assert_eq!(m.min_step_delay_micros, 1000);
    m.apply_speed(Motion::Forward, 100);
    m.set_min_pulse_width(0);
    assert_eq!(m.min_step_delay_micros, 100);
    assert_eq!(m.pulse_iterations(), 100);
    m.set_min_pulse_width(400);
    assert_eq!(m.min_step_delay_micros, 400);
    assert_eq!(m.pulse_iterations(), 40_000);
}

#[test]
fn pulse_width_sets_pulse_length() {
    let mut m = StepperMotor::new();
    m.set_min_pulse_width(2);
    assert_eq!(m.pulse_iterations(), 200);
    assert_eq!(m.min_step_delay_micros, 1000);
    m.set_min_pulse_width(1_000_000);
    assert_eq!(m.pulse_iterations(), 100_000);
    assert_eq!(m.min_step_delay_micros, 1000);
}

#[test]
fn whole_move_updates_position_and_time() {
    let mut m = StepperMotor::new();
    m.apply_speed(Motion::Forward, 500);
    let n = m.begin_move(-9, true, 700);
    assert_eq!(n, 5);
    m.finish_move(n, 700);
    assert_eq!(m.get_position(), -5);
    assert_eq!(m.last_step_time, 700);
    assert_eq!(m.begin_move(3, true, 900), 0);
    let n = m.begin_move(3, true, 1200);
    m.finish_move(n, 1200);
    assert_eq!(m.get_position(), -2);
    m.record_steps(4);
    assert_eq!(m.get_position(), 2);
    assert_eq!(m.last_step_time, 1200);
}

#[test]
fn adaptive_delay_table() {
    assert_eq!(adaptive_delay(0), 20);
    assert_eq!(adaptive_delay(20), 20);
    assert_eq!(adaptive_delay(21), 14);
    assert_eq!(adaptive_delay(100), 66);
    assert_eq!(adaptive_delay(101), 75);
    assert_eq!(adaptive_delay(500), 375);
    assert_eq!(adaptive_delay(501), 501);
    assert_eq!(delay_iterations(500), 37_500);
    assert_eq!(microsteps_per_revolution(), 6400);
}

#[test]
fn toggle_flips_level() {
    let mut l = Level::Low;
    l.toggle();
    assert_eq!(l, Level::High);
    l.toggle();
    assert_eq!(l, Level::Low);
}

#[test]
fn begin_move_plans_due_steps() {
    let mut m = StepperMotor::new();
    // stopped: direction follows the request, nothing is due
    assert_eq!(m.begin_move(-3, true, 5000), 0);
    assert!(!m.direction);
    m.apply_speed(Motion::Forward, 1000);
    assert_eq!(m.begin_move(8, true, 999), 0);
    assert!(m.direction);
    assert_eq!(m.begin_move(8, true, 1000), 5);
    assert_eq!(m.begin_move(-2, false, 1000), 2);
    assert!(m.direction);
    assert_eq!(m.begin_move(i32::MIN, true, 10), 0);
    assert!(!m.direction);
}
