//! The intake subsystem: the control state that the driver and the autonomous
//! routes set, and the motor outputs that the intake's update loop derives from it.
//!
//! # Hardware
//!
//! - Front intake motor: powers the intake mechanism and the first stage of the lift.
//! - Middle lift motor: powers the middle stage of the lift.
//! - Top lift motor: powers the top stage of the lift and chooses the goal that
//!   the balls are sent to.
use vstd::prelude::*;

verus! {

/// Full speed, in thousandths.
pub const FULL_SPEED: u16 = 1000;

/// Which goal the top stage of the lift sends the balls to.
#[derive(Clone, Copy, Debug, PartialEq, Eq, Structural)]
pub enum OuttakeMode {
    Long,
    TopMiddle,
    /// No outtake: the top stage holds the balls.
    Off,
}

/// What the intake is asked to do.
#[derive(Clone, Copy, Debug, PartialEq, Eq, Structural)]
pub struct IntakeControl {
    /// Move the balls backwards instead of forwards.
    pub reverse: bool,
    /// Power the front intake motor (otherwise it coasts).
    pub run_intake: bool,
    /// Where the top stage sends the balls.
    pub outtake: OuttakeMode,
    /// Speed in thousandths of full speed: `1000` is full speed, `500` half speed.
    pub speed: u16,
}

/// The control that `IntakeControl::default` gives.
pub open spec fn default_control() -> IntakeControl {
    IntakeControl { reverse: false, run_intake: true, outtake: OuttakeMode::Off, speed: FULL_SPEED }
}

/// The default control with the given direction and outtake mode.
pub open spec fn command_control(reverse: bool, outtake: OuttakeMode) -> IntakeControl {
    IntakeControl { reverse, outtake, ..default_control() }
}

impl Default for IntakeControl {
    fn default() -> (res: Self)
        ensures
            res == default_control(),
    {
        IntakeControl { reverse: false, outtake: OuttakeMode::Off, speed: FULL_SPEED, run_intake: true }
    }
}

/// How a motor holds still when it is not driven.
#[derive(Clone, Copy, Debug, PartialEq, Eq, Structural)]
pub enum BrakeMode {
    /// The motor never brakes.
    Coast,
    /// Regenerative braking.
    Brake,
    /// The motor holds its position.
    Hold,
}

/// What a motor is told to do.
#[derive(Clone, Copy, Debug, PartialEq, Eq, Structural)]
pub enum MotorOutput {
    /// Drive with this share of the motor's maximum voltage, in thousandths;
    /// the sign gives the direction.
    Voltage(i32),
    /// Stop with this brake mode.
    Brake(BrakeMode),
}

/// What the three intake motors are told to do.
#[derive(Clone, Copy, Debug, PartialEq, Eq, Structural)]
pub struct IntakeOutputs {
    pub intake: MotorOutput,
    pub middle: MotorOutput,
    pub top: MotorOutput,
}

/// Signed share of full voltage: the speed, negated when reversing.
pub open spec fn drive_factor(control: IntakeControl) -> int {
    if control.reverse {
        -(control.speed as int)
    } else {
        control.speed as int
    }
}

/// The motor outputs for a control state. Without control every motor coasts,
/// so that friction holds the balls in place.
pub open spec fn outputs_for(control: Option<IntakeControl>) -> IntakeOutputs {
    match control {
        None => IntakeOutputs {
            intake: MotorOutput::Brake(BrakeMode::Coast),
            middle: MotorOutput::Brake(BrakeMode::Coast),
            top: MotorOutput::Brake(BrakeMode::Coast),
        },
        Some(c) => {
            let f = drive_factor(c) as i32;
            IntakeOutputs {
                intake: if c.run_intake {
                    MotorOutput::Voltage(f)
                } else {
                    MotorOutput::Brake(BrakeMode::Coast)
                },
                middle: MotorOutput::Voltage(f),
                top: match c.outtake {
                    OuttakeMode::Long => MotorOutput::Voltage(f),
                    OuttakeMode::TopMiddle => MotorOutput::Voltage((-drive_factor(c)) as i32),
                    OuttakeMode::Off => MotorOutput::Brake(BrakeMode::Hold),
                },
            }
        },
    }
}

/// The motor outputs that the intake's update loop applies for `control`.
pub fn motor_outputs(control: Option<IntakeControl>) -> (res: IntakeOutputs)
    ensures
        res == outputs_for(control),
{
    match control {
        None => IntakeOutputs {
            intake: MotorOutput::Brake(BrakeMode::Coast),
            top: MotorOutput::Brake(BrakeMode::Coast),
            middle: MotorOutput::Brake(BrakeMode::Coast),
        },
        Some(c) => {
            let speed: i32 = c.speed as i32;
            let factor: i32 = if c.reverse { -speed } else { speed };
            let intake = if c.run_intake {
                MotorOutput::Voltage(factor)
            } else {
                MotorOutput::Brake(BrakeMode::Coast)
            };
            let middle = MotorOutput::Voltage(factor);
            let top = match c.outtake {
                OuttakeMode::Long => MotorOutput::Voltage(factor),
                OuttakeMode::TopMiddle => MotorOutput::Voltage(-factor),
                OuttakeMode::Off => MotorOutput::Brake(BrakeMode::Hold),
            };
            IntakeOutputs { intake, middle, top }
        },
    }
}

/// Whether a distance reading shows a ball. `reading` is `None` where the
/// sensor could not be read, `Some(None)` where it sees nothing, and
/// `Some(Some(d))` where it sees an object `d` millimetres away. A failed
/// read keeps the previous answer.
pub open spec fn ball_after_reading(previous: bool, reading: Option<Option<u32>>, threshold: u32) -> bool {
    match reading {
        None => previous,
        Some(None) => false,
        Some(Some(distance)) => distance < threshold,
    }
}

/// The plain state of an intake.
pub struct IntakeView {
    pub control: Option<IntakeControl>,
    pub ball_detected: bool,
    pub ball_presence_threshold: u32,
}

impl IntakeView {
    pub open spec fn with_control(self, control: Option<IntakeControl>) -> IntakeView {
        IntakeView { control, ..self }
    }
}

/// The intake subsystem's state: the current control, whether a ball is in the
/// intake, and the distance under which the presence sensor counts an object as
/// a ball.
pub struct Intake {
    control: Option<IntakeControl>,
    ball_detected: bool,
    ball_presence_threshold: u32,
}

impl View for Intake {
    type V = IntakeView;

    closed spec fn view(&self) -> IntakeView {
        IntakeView {
            control: self.control,
            ball_detected: self.ball_detected,
            ball_presence_threshold: self.ball_presence_threshold,
        }
    }
}

impl Intake {
    /// A stopped intake with no ball seen yet.
    pub fn new(ball_presence_threshold: u32) -> (res: Intake)
        ensures
            res@ == (IntakeView { control: None, ball_detected: false, ball_presence_threshold }),
    {
        Intake { control: None, ball_detected: false, ball_presence_threshold }
    }

    /// The current control state.
    pub fn control(&self) -> (res: Option<IntakeControl>)
        ensures
            res == self@.control,
    {
        self.control
    }

    /// Intake: run forwards, holding the top stage.
    pub fn intake(&mut self)
        ensures
            final(self)@ == old(self)@.with_control(Some(command_control(false, OuttakeMode::Off))),
    {
        self.control = Some(IntakeControl { reverse: false, outtake: OuttakeMode::Off, ..Default::default() });
    }

    /// Reverse intake: run backwards, holding the top stage.
    pub fn reverse_intake(&mut self)
        ensures
            final(self)@ == old(self)@.with_control(Some(command_control(true, OuttakeMode::Off))),
    {
        self.control = Some(IntakeControl { reverse: true, outtake: OuttakeMode::Off, ..Default::default() });
    }

    /// Outtake to the long goal.
    pub fn outtake_long(&mut self)
        ensures
            final(self)@ == old(self)@.with_control(Some(command_control(false, OuttakeMode::Long))),
    {
        self.control = Some(IntakeControl { reverse: false, outtake: OuttakeMode::Long, ..Default::default() });
    }

    /// Outtake to the top middle goal.
    pub fn outtake_top_middle(&mut self)
        ensures
            final(self)@ == old(self)@.with_control(Some(command_control(false, OuttakeMode::TopMiddle))),
    {
        self.control = Some(IntakeControl { reverse: false, outtake: OuttakeMode::TopMiddle, ..Default::default() });
    }

    /// Stop all intake actions.
    pub fn brake(&mut self)
        ensures
            final(self)@ == old(self)@.with_control(None),
    {
        self.control = None;
    }

    /// Whether a ball is currently detected.
    pub fn ball_detected(&self) -> (res: bool)
        ensures
            res == self@.ball_detected,
    {
        self.ball_detected
    }

    /// Set the control state by hand.
    pub fn set_control(&mut self, control: Option<IntakeControl>)
        ensures
            final(self)@ == old(self)@.with_control(control),
    {
        self.control = control;
    }

    /// The motor outputs for the current control state.
    pub fn outputs(&self) -> (res: IntakeOutputs)
        ensures
            res == outputs_for(self@.control),
    {
        motor_outputs(self.control)
    }

    /// Takes in a reading of the ball presence sensor (see `ball_after_reading`).
    pub fn record_distance(&mut self, reading: Option<Option<u32>>)
        ensures
            final(self)@ == (IntakeView {
                ball_detected: ball_after_reading(old(self)@.ball_detected, reading, old(self)@.ball_presence_threshold),
                ..old(self)@
            }),
    {
        match reading {
            None => {},
            Some(object) => {
                self.ball_detected = match object {
                    Some(distance) => distance < self.ball_presence_threshold,
                    None => false,
                };
            },
        }
    }
}

/// The outcome of a wait for a ball with deadline `timeout`, at time `now`:
/// `Some(true)` once a ball is detected, `Some(false)` once the deadline is
/// reached without a ball, `None` while still waiting.
pub open spec fn wait_outcome(timeout: Option<u64>, ball_detected: bool, now: u64) -> Option<bool> {
    if ball_detected {
        Some(true)
    } else if timeout matches Some(deadline) && deadline <= now {
        Some(false)
    } else {
        None
    }
}

/// Waits until the intake has detected a ball, or until an optional deadline.
///
/// Times are microseconds on one clock.
pub struct BallDetectedFuture {
    pub timeout: Option<u64>,
}

impl BallDetectedFuture {
    /// A wait that starts at `now` and gives up `timeout` later; with no
    /// timeout it waits for ever.
    pub fn new(now: u64, timeout: Option<u64>) -> (res: BallDetectedFuture)
        requires
            timeout matches Some(t) ==> now + t <= u64::MAX,
        ensures
            res.timeout == (match timeout {
                Some(t) => Some((now + t) as u64),
                None => None::<u64>,
            }),
    {
        match timeout {
            Some(t) => BallDetectedFuture { timeout: Some(now + t) },
            None => BallDetectedFuture { timeout: None },
        }
    }

    /// The outcome at time `now` (see `wait_outcome`).
    pub fn check(&self, ball_detected: bool, now: u64) -> (res: Option<bool>)
        ensures
            res == wait_outcome(self.timeout, ball_detected, now),
    {
        if ball_detected {
            Some(true)
        } else {
            match self.timeout {
                Some(deadline) => {
                    if deadline <= now {
                        Some(false)
                    } else {
                        None
                    }
                },
                None => None,
            }
        }
    }
}

/// With no control state every motor coasts, so that friction holds the balls
/// in place.
pub proof fn stopped_intake_coasts()
    ensures
        outputs_for(None) == (IntakeOutputs {
            intake: MotorOutput::Brake(BrakeMode::Coast),
            middle: MotorOutput::Brake(BrakeMode::Coast),
            top: MotorOutput::Brake(BrakeMode::Coast),
        }),
{
}

/// Reversing a control reverses every driven motor and leaves the braked ones
/// as they were.
pub proof fn reverse_mirrors_outputs(control: IntakeControl)
    ensures
        ({
            let forward = outputs_for(Some(IntakeControl { reverse: false, ..control }));
            let backward = outputs_for(Some(IntakeControl { reverse: true, ..control }));
            &&& forward.middle == MotorOutput::Voltage(control.speed as i32)
            &&& backward.middle == MotorOutput::Voltage((-(control.speed as int)) as i32)
            &&& (forward.intake matches MotorOutput::Voltage(v) ==> backward.intake == MotorOutput::Voltage((-v) as i32))
            &&& (forward.intake matches MotorOutput::Brake(m) ==> backward.intake == forward.intake)
            &&& (forward.top matches MotorOutput::Voltage(v) ==> backward.top == MotorOutput::Voltage((-v) as i32))
            &&& (forward.top matches MotorOutput::Brake(m) ==> backward.top == forward.top)
        }),
{
}

/// The top stage turns with the middle stage to send the balls to the long
/// goal, against it for the top middle goal, and holds otherwise.
pub proof fn outtake_mode_sets_top_direction(control: IntakeControl)
    ensures
        ({
            let out = outputs_for(Some(control));
            let middle = drive_factor(control);
            &&& out.middle == MotorOutput::Voltage(middle as i32)
            &&& control.outtake == OuttakeMode::Long ==> out.top == MotorOutput::Voltage(middle as i32)
            &&& control.outtake == OuttakeMode::TopMiddle ==> out.top == MotorOutput::Voltage((-middle) as i32)
            &&& control.outtake == OuttakeMode::Off ==> out.top == MotorOutput::Brake(BrakeMode::Hold)
        }),
{
}

/// A control state set on the intake is the one read back, and setting it
/// leaves ball detection and the sensor threshold as they were.
pub proof fn control_reads_back(intake: IntakeView, control: Option<IntakeControl>)
    ensures
        intake.with_control(control).control == control,
        intake.with_control(control).ball_detected == intake.ball_detected,
        intake.with_control(control).ball_presence_threshold == intake.ball_presence_threshold,
{
}

/// A wait without a timeout never gives up: it ends only with a ball.
pub proof fn wait_without_timeout_needs_ball(ball_detected: bool, now: u64)
    ensures
        wait_outcome(None, ball_detected, now) == (if ball_detected { Some(true) } else { None::<bool> }),
{
}

/// Once the deadline has passed, a wait stays given up at every later time
/// while no ball arrives.
pub proof fn given_up_stays_given_up(timeout: Option<u64>, now: u64, later: u64)
    requires
        wait_outcome(timeout, false, now) == Some(false),
        now <= later,
    ensures
        wait_outcome(timeout, false, later) == Some(false),
{
}

/// With its control set, the front intake runs exactly as the middle stage
/// does: the control's speed, negated when reversing. With `run_intake` unset
/// it coasts instead.
pub proof fn front_intake_follows_speed(c: IntakeControl)
    ensures
        c.run_intake ==> outputs_for(Some(c)).intake == outputs_for(Some(c)).middle,
        c.run_intake ==> outputs_for(Some(c)).intake == MotorOutput::Voltage(
            if c.reverse {
                (-(c.speed as int)) as i32
            } else {
                c.speed as i32
            },
        ),
        !c.run_intake ==> outputs_for(Some(c)).intake == MotorOutput::Brake(BrakeMode::Coast),
        outputs_for(Some(c)).middle == MotorOutput::Voltage(
            if c.reverse {
                (-(c.speed as int)) as i32
            } else {
                c.speed as i32
            },
        ),
{
}

/// A successful reading decides ball detection by itself, whatever the
/// previous answer: an object nearer than the threshold is a ball, a farther
/// object or none is not. Only a failed read keeps the previous answer. So the
/// same reading twice gives the same answer twice.
pub proof fn reading_decides_detection(previous: bool, other: bool, reading: Option<Option<u32>>, threshold: u32)
    ensures
        forall|d: u32|
            reading == Some(Some(d)) ==> ball_after_reading(previous, reading, threshold) == (d < threshold),
        reading == Some(None::<u32>) ==> !ball_after_reading(previous, reading, threshold),
        reading is None ==> ball_after_reading(previous, reading, threshold) == previous,
        reading is Some ==> ball_after_reading(previous, reading, threshold) == ball_after_reading(other, reading, threshold),
        reading is Some ==> ball_after_reading(ball_after_reading(previous, reading, threshold), reading, threshold)
            == ball_after_reading(previous, reading, threshold),
{
}

} // verus!
