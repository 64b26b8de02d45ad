//! Bookkeeping of a step/direction stepper motor: its direction, position in
//! microsteps, whether and which way it is commanded to turn, and the timing
//! rules that decide when the next step pulse is due.

use vstd::prelude::*;

verus! {

/// Microstepping of the driver (1/32 steps)
pub const MICROSTEPS: u16 = 32;
/// Full steps per revolution of the motor
pub const STEPS_PER_REVOLUTION: u16 = 200;
/// Most steps taken in one call of `move_steps`
pub const MAX_STEPS_PER_MOVE: u32 = 5;
/// Shortest delay between steps once a speed is set, in microseconds
pub const MIN_STEP_DELAY_MICROS: u64 = 100;

/// The sign of the commanded speed.
#[derive(Debug, Clone, Copy, PartialEq, Eq, Structural)]
pub enum Motion {
    /// Speed zero: no step is ever due
    Stopped,
    /// Positive speed
    Forward,
    /// Negative (or undefined) speed
    Reverse,
}

/// State of a stepper motor.
#[derive(Debug, Clone, Copy, PartialEq, Eq, Structural)]
pub struct StepperMotor {
    /// Current direction (true = forward, false = reverse)
    pub direction: bool,
    /// Current position in microsteps
    pub position: i32,
    /// Sign of the commanded speed
    pub motion: Motion,
    /// Time of the last step in microseconds
    pub last_step_time: u64,
    /// Minimum delay between steps in microseconds
    pub min_step_delay_micros: u64,
    /// Length of the step pulse, in busy-wait iterations
    pub min_pulse_width: u32,
}

/// The position after one step in `direction`.
pub open spec fn spec_after_step(position: i32, direction: bool) -> int {
    if direction {
        position + 1
    } else {
        position - 1
    }
}

/// The position after `n` steps in `direction`.
pub open spec fn spec_after_steps(position: i32, direction: bool, n: int) -> int {
    if direction {
        position + n
    } else {
        position - n
    }
}

/// Busy-wait iterations per microsecond of pulse or delay.
pub const ITERATIONS_PER_MICRO: u32 = 100;

/// A requested pulse width clamped to 1..=1000 microseconds.
pub open spec fn spec_clamped_pulse_width(width_micros: u64) -> int {
    vstd::math::min(vstd::math::max(width_micros as int, 1), 1000)
}

/// The delay used after a step pulse, for a requested delay in microseconds:
/// never below 20, shortened for fast speeds.
pub open spec fn spec_adaptive_delay(delay_micros: u32) -> int {
    if delay_micros <= 20 {
        20
    } else if delay_micros <= 100 {
        delay_micros * 2 / 3
    } else if delay_micros <= 500 {
        delay_micros * 3 / 4
    } else {
        delay_micros as int
    }
}

/// The number of steps `move_steps(steps)` takes when a step is due.
pub open spec fn spec_steps_to_take(steps: i32) -> int {
    let a = if steps >= 0 { steps as int } else { -steps };
    if a < MAX_STEPS_PER_MOVE { a } else { MAX_STEPS_PER_MOVE as int }
}

/// Whether a step is due at `t`: never when stopped, otherwise once the
/// minimum delay has passed since the last step.
pub open spec fn spec_should_step(m: StepperMotor, t: u64) -> bool {
    m.motion != Motion::Stopped && t - m.last_step_time >= m.min_step_delay_micros
}

impl StepperMotor {
    /// A motor at position 0, facing forward, stopped, with one millisecond
    /// between steps and a pulse of ten iterations.
    pub fn new() -> (r: Self)
        ensures
            r == (StepperMotor {
                direction: true,
                position: 0,
                motion: Motion::Stopped,
                last_step_time: 0,
                min_step_delay_micros: 1000,
                min_pulse_width: 10,
            }),
    {
        StepperMotor {
            direction: true,
            position: 0,
            motion: Motion::Stopped,
            last_step_time: 0,
            min_step_delay_micros: 1000,
            min_pulse_width: 10,
        }
    }

    /// Records the direction after the direction pin was driven.
    pub fn set_direction(&mut self, forward: bool)
        ensures
            *final(self) == (StepperMotor { direction: forward, ..*old(self) }),
    {
        self.direction = forward;
    }

    /// Records a step pulse: the position moves one microstep in the current direction.
    pub fn record_step(&mut self)
        requires
            i32::MIN <= spec_after_step(old(self).position, old(self).direction) <= i32::MAX,
        ensures
            final(self).position == spec_after_step(old(self).position, old(self).direction),
            *final(self) == (StepperMotor { position: final(self).position, ..*old(self) }),
    {
        if self.direction {
            self.position = self.position + 1;
        } else {
            self.position = self.position - 1;
        }
    }

    /// Records a new commanded speed given by its sign and by the step delay it
    /// calls for: a moving motor waits at least `MIN_STEP_DELAY_MICROS` between
    /// steps; stopping keeps the delay as it was.
    pub fn apply_speed(&mut self, motion: Motion, step_delay_micros: u64)
        ensures
            final(self).motion == motion,
            final(self).min_step_delay_micros == (if motion == Motion::Stopped {
                old(self).min_step_delay_micros
            } else if step_delay_micros < MIN_STEP_DELAY_MICROS {
                MIN_STEP_DELAY_MICROS
            } else {
                step_delay_micros
            }),
            *final(self) == (StepperMotor {
                motion,
                min_step_delay_micros: final(self).min_step_delay_micros,
                ..*old(self)
            }),
    {
        self.motion = motion;
        if motion != Motion::Stopped {
            self.min_step_delay_micros = if step_delay_micros < MIN_STEP_DELAY_MICROS {
                MIN_STEP_DELAY_MICROS
            } else {
                step_delay_micros
            };
        }
    }

    /// Whether a step is due at `current_time_micros`: never when stopped,
    /// otherwise once the minimum delay has passed since the last step.
    pub fn should_step(&self, current_time_micros: u64) -> (r: bool)
        requires
            self.motion == Motion::Stopped || current_time_micros >= self.last_step_time,
        ensures
            r == (self.motion != Motion::Stopped && current_time_micros - self.last_step_time
                >= self.min_step_delay_micros),
    {
        if self.motion == Motion::Stopped {
            return false;
        }
        current_time_micros - self.last_step_time >= self.min_step_delay_micros
    }

    /// Records the time of the last step.
    pub fn update_last_step_time(&mut self, time_micros: u64)
        ensures
            *final(self) == (StepperMotor { last_step_time: time_micros, ..*old(self) }),
    {
        self.last_step_time = time_micros;
    }

    /// The number of steps taken for a request of `steps`: its magnitude, at
    /// most `MAX_STEPS_PER_MOVE`.
    pub fn steps_to_take(steps: i32) -> (r: u32)
        requires
            steps != i32::MIN,
        ensures
            r == spec_steps_to_take(steps),
            r <= MAX_STEPS_PER_MOVE,
    {
        let a = if steps >= 0 { steps } else { -steps };
        if (a as u32) < MAX_STEPS_PER_MOVE {
            a as u32
        } else {
            MAX_STEPS_PER_MOVE
        }
    }

    /// Starts a move of `steps`: the direction becomes `steps >= 0` when the
    /// direction pin could be driven (`direction_driven`), and the result is
    /// the number of step pulses due now: none when no step is due at
    /// `current_time_micros`, otherwise the magnitude of `steps`, at most
    /// `MAX_STEPS_PER_MOVE`.
    pub fn begin_move(&mut self, steps: i32, direction_driven: bool, current_time_micros: u64) -> (r: u32)
        requires
            old(self).motion == Motion::Stopped || current_time_micros >= old(self).last_step_time,
            spec_should_step(*old(self), current_time_micros) ==> steps != i32::MIN,
        ensures
            *final(self) == (StepperMotor {
                direction: if direction_driven { steps >= 0 } else { old(self).direction },
                ..*old(self)
            }),
            r == (if spec_should_step(*old(self), current_time_micros) {
                spec_steps_to_take(steps)
            } else {
                0
            }),
            r <= MAX_STEPS_PER_MOVE,
    {
        if direction_driven {
            self.set_direction(steps >= 0);
        }
        if self.should_step(current_time_micros) {
            Self::steps_to_take(steps)
        } else {
            0
        }
    }

    /// The current position in microsteps.
    pub fn get_position(&self) -> (r: i32)
        ensures
            r == self.position,
    {
        self.position
    }

    /// Sets the current position (homing or resetting).
    pub fn set_position(&mut self, position: i32)
        ensures
            *final(self) == (StepperMotor { position, ..*old(self) }),
    {
        self.position = position;
    }

    /// The sign of the commanded speed.
    pub fn motion(&self) -> (r: Motion)
        ensures
            r == self.motion,
    {
        self.motion
    }

    /// The single step that moves toward `target_position`: +1, -1, or 0 when
    /// the motor is already there.
    pub fn step_toward(&self, target_position: i32) -> (r: i32)
        requires
            i32::MIN <= target_position - self.position <= i32::MAX,
        ensures
            r == (if target_position > self.position {
                1
            } else if target_position < self.position {
                -1int
            } else {
                0
            }),
    {
        let steps_to_move = target_position - self.position;
        if steps_to_move > 0 {
            1
        } else if steps_to_move < 0 {
            -1
        } else {
            0
        }
    }

    /// Sets the step pulse width to `width_micros`, clamped to 1..=1000: the
    /// pulse is held for one hundred busy-wait iterations per microsecond (the
    /// rate the step delay uses too), and the minimum delay between steps
    /// becomes at least the pulse width so the driver registers every pulse.
    pub fn set_min_pulse_width(&mut self, width_micros: u64)
        ensures
            final(self).min_step_delay_micros == vstd::math::max(
                old(self).min_step_delay_micros as int,
                spec_clamped_pulse_width(width_micros),
            ),
            final(self).min_pulse_width == spec_clamped_pulse_width(width_micros) * ITERATIONS_PER_MICRO,
            final(self).min_step_delay_micros >= old(self).min_step_delay_micros,
            *final(self) == (StepperMotor {
                min_step_delay_micros: final(self).min_step_delay_micros,
                min_pulse_width: final(self).min_pulse_width,
                ..*old(self)
            }),
    {
        let lower = if width_micros < 1 { 1 } else { width_micros };
        let clamped_width = if lower > 1000 { 1000 } else { lower };
        self.min_pulse_width = clamped_width as u32 * ITERATIONS_PER_MICRO;
        if clamped_width > self.min_step_delay_micros {
            self.min_step_delay_micros = clamped_width;
        }
    }

    /// Records the end of a move of `pulses` step pulses: the position moves
    /// that many microsteps in the current direction, and the move's time
    /// becomes the time of the last step.
    pub fn finish_move(&mut self, pulses: u32, current_time_micros: u64)
        requires
            i32::MIN <= spec_after_steps(old(self).position, old(self).direction, pulses as int) <= i32::MAX,
        ensures
            *final(self) == (StepperMotor {
                position: spec_after_steps(old(self).position, old(self).direction, pulses as int) as i32,
                last_step_time: current_time_micros,
                ..*old(self)
            }),
    {
        self.record_steps(pulses);
        self.update_last_step_time(current_time_micros);
    }

    /// Records `pulses` step pulses: the position moves that many microsteps in
    /// the current direction.
    pub fn record_steps(&mut self, pulses: u32)
        requires
            i32::MIN <= spec_after_steps(old(self).position, old(self).direction, pulses as int) <= i32::MAX,
        ensures
            *final(self) == (StepperMotor {
                position: spec_after_steps(old(self).position, old(self).direction, pulses as int) as i32,
                ..*old(self)
            }),
    {
        let mut i: u32 = 0;
        while i < pulses
            invariant
                i <= pulses,
                *self == (StepperMotor {
                    position: spec_after_steps(old(self).position, old(self).direction, i as int) as i32,
                    ..*old(self)
                }),
                i32::MIN <= spec_after_steps(old(self).position, old(self).direction, pulses as int) <= i32::MAX,
            decreases pulses - i,
        {
            self.record_step();
            i = i + 1;
        }
    }

    /// The number of busy-wait iterations that hold the step pin high.
    pub fn pulse_iterations(&self) -> (r: u32)
        ensures
            r == self.min_pulse_width,
    {
        self.min_pulse_width
    }
}

/// The delay after a step pulse for a requested delay: at least 20
/// microseconds, two thirds of it up to 100, three quarters up to 500, and the
/// request itself beyond.
pub fn adaptive_delay(delay_micros: u32) -> (r: u32)
    ensures
        r == spec_adaptive_delay(delay_micros),
        r <= vstd::math::max(delay_micros as int, 20),
        delay_micros > 500 ==> r == delay_micros,
        delay_micros <= 20 ==> r == 20,
        20 < delay_micros <= 100 ==> 3 * r <= 2 * delay_micros < 3 * r + 3,
        100 < delay_micros <= 500 ==> 4 * r <= 3 * delay_micros < 4 * r + 4,
{
    if delay_micros <= 20 {
        20
    } else if delay_micros <= 100 {
        delay_micros * 2 / 3
    } else if delay_micros <= 500 {
        delay_micros * 3 / 4
    } else {
        delay_micros
    }
}

/// The busy-wait iterations after a step pulse: one hundred per microsecond of
/// the adaptive delay.
pub fn delay_iterations(delay_micros: u32) -> (r: u32)
    requires
        spec_adaptive_delay(delay_micros) * 100 <= u32::MAX,
    ensures
        r == spec_adaptive_delay(delay_micros) * 100,
{
    adaptive_delay(delay_micros) * ITERATIONS_PER_MICRO
}

/// Microsteps in one revolution of the output shaft.
pub fn microsteps_per_revolution() -> (r: u32)
    ensures
        r == STEPS_PER_REVOLUTION * MICROSTEPS,
{
    STEPS_PER_REVOLUTION as u32 * MICROSTEPS as u32
}

/// The adaptive delay keeps every requested delay above 500 microseconds as it
/// is, never goes below 20 microseconds, shortens a delay from 21 to 100
/// microseconds to two thirds (rounded down) and one from 101 to 500 to three
/// quarters (rounded down).
pub proof fn lemma_adaptive_delay(d: u32)
    ensures
        d > 500 ==> spec_adaptive_delay(d) == d,
        d <= 20 ==> spec_adaptive_delay(d) == 20,
        20 < d <= 100 ==> 3 * spec_adaptive_delay(d) <= 2 * d < 3 * spec_adaptive_delay(d) + 3,
        100 < d <= 500 ==> 4 * spec_adaptive_delay(d) <= 3 * d < 4 * spec_adaptive_delay(d) + 4,
        spec_adaptive_delay(d) >= 14,
{
}

/// A step in one direction followed by a step in the other returns the motor
/// to where it was.
pub proof fn lemma_step_and_back(position: i32, direction: bool)
    requires
        i32::MIN < position < i32::MAX,
    ensures
        spec_after_step(spec_after_step(position, direction) as i32, !direction) == position,
{
}

/// A stopped motor never has a step due, whatever the time.
pub proof fn lemma_stopped_never_steps(m: StepperMotor, t: u64)
    requires
        m.motion == Motion::Stopped,
    ensures
        !spec_should_step(m, t),
{
}

/// A whole move of `steps` that is due, with the direction pin driven and every
/// pulse sent (`begin_move`, then `finish_move` with the pulses it returned), moves the
/// position by `steps` clamped to `-MAX_STEPS_PER_MOVE..=MAX_STEPS_PER_MOVE`
/// and records `current_time_micros` as the time of the last step.
pub proof fn lemma_whole_move(m: StepperMotor, steps: i32, current_time_micros: u64)
    requires
        steps != i32::MIN,
        current_time_micros >= m.last_step_time,
        spec_should_step(m, current_time_micros),
        i32::MIN + 5 <= m.position <= i32::MAX - 5,
    ensures
        ({
            let started = StepperMotor { direction: steps >= 0, ..m };
            let n = spec_steps_to_take(steps);
            let finished = StepperMotor {
                position: spec_after_steps(started.position, started.direction, n) as i32,
                last_step_time: current_time_micros,
                ..started
            };
            &&& finished.position == m.position + (if steps > 5 {
                5
            } else if steps < -5 {
                -5
            } else {
                steps as int
            })
            &&& finished.last_step_time == current_time_micros
            &&& finished.motion == m.motion
            &&& finished.min_step_delay_micros == m.min_step_delay_micros
        }),
{
}

} // verus!
