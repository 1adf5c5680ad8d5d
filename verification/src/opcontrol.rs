//! Driver control: what each controller update asks of the intake, the match
//! loader, the descore arm and the double park mechanism.
//!
//! Button map:
//! - L1 starts outtaking to the long goal. The balls first run backwards for an
//!   anti-jam period, and only then does the intake switch to outtake long.
//! - L2 outtakes to the top middle goal.
//! - R1 intakes, R2 reverses the intake.
//! - Releasing the last held intake button stops the intake.
//! - A toggles the match loader, X the descore arm.
//! - The power button toggles the double park.
//!
//! Times are microseconds on one clock.
use vstd::prelude::*;

use crate::intake::{command_control, IntakeControl, OuttakeMode, FULL_SPEED};

verus! {

/// A controller button, as seen in two successive controller updates.
#[derive(Clone, Copy, Debug, PartialEq, Eq, Structural)]
pub struct ButtonState {
    /// Pressed in the previous update.
    pub prev_pressed: bool,
    /// Pressed in this update.
    pub pressed: bool,
}

impl ButtonState {
    pub open spec fn spec_now_pressed(self) -> bool {
        !self.prev_pressed && self.pressed
    }

    pub open spec fn spec_now_released(self) -> bool {
        self.prev_pressed && !self.pressed
    }

    /// Whether the button is currently held.
    pub fn is_pressed(&self) -> (res: bool)
        ensures
            res == self.pressed,
    {
        self.pressed
    }

    /// Whether the button went down since the previous update.
    pub fn is_now_pressed(&self) -> (res: bool)
        ensures
            res == self.spec_now_pressed(),
    {
        !self.prev_pressed && self.pressed
    }

    /// Whether the button came up since the previous update.
    pub fn is_now_released(&self) -> (res: bool)
        ensures
            res == self.spec_now_released(),
    {
        self.prev_pressed && !self.pressed
    }
}

/// The buttons that driver control reads.
#[derive(Clone, Copy, Debug, PartialEq, Eq, Structural)]
pub struct DriverButtons {
    pub l1: ButtonState,
    pub l2: ButtonState,
    pub r1: ButtonState,
    pub r2: ButtonState,
    pub a: ButtonState,
    pub x: ButtonState,
    pub power: ButtonState,
}

/// What the double park button asks for.
#[derive(Clone, Copy, Debug, PartialEq, Eq, Structural)]
pub enum DoubleParkAction {
    /// Run the double park sequence (see `double_park_sequence`).
    Start,
    /// Retract the double park mechanism.
    Retract,
}

/// What one controller update asks of the robot.
#[derive(Clone, Copy, Debug, PartialEq, Eq, Structural)]
pub struct DriverActions {
    /// `Some(c)`: set the intake's control state to `c`; `None`: leave it.
    pub intake: Option<Option<IntakeControl>>,
    pub toggle_match_loader: bool,
    pub toggle_descore_arm: bool,
    pub double_park: Option<DoubleParkAction>,
}

/// The control that L1 starts with: balls run backwards, the front intake
/// coasts, and the top stage turns as for the top middle goal.
pub open spec fn anti_jam_control() -> IntakeControl {
    IntakeControl { reverse: true, run_intake: false, outtake: OuttakeMode::TopMiddle, speed: FULL_SPEED }
}

/// Time from `start` to `now`, zero where `now` is earlier.
pub open spec fn elapsed(start: u64, now: u64) -> int {
    if start <= now {
        now - start
    } else {
        0
    }
}

/// The state that driver control keeps between controller updates.
pub struct DriverView {
    pub double_park: bool,
    pub outtake_long_start: Option<u64>,
    pub outtake_reverse_duration: u64,
}

pub struct DriverState {
    double_park: bool,
    outtake_long_start: Option<u64>,
    outtake_reverse_duration: u64,
}

impl View for DriverState {
    type V = DriverView;

    closed spec fn view(&self) -> DriverView {
        DriverView {
            double_park: self.double_park,
            outtake_long_start: self.outtake_long_start,
            outtake_reverse_duration: self.outtake_reverse_duration,
        }
    }
}

/// Whether any intake button came up while none is held.
pub open spec fn all_intake_released(b: DriverButtons) -> bool {
    &&& (b.l1.spec_now_released() || b.l2.spec_now_released() || b.r1.spec_now_released()
        || b.r2.spec_now_released())
    &&& !(b.l1.pressed || b.l2.pressed || b.r1.pressed || b.r2.pressed)
}

/// Whether the anti-jam period ends in this update.
pub open spec fn anti_jam_over(s: DriverView, b: DriverButtons, now: u64) -> bool {
    if b.l1.spec_now_pressed() {
        s.outtake_reverse_duration == 0
    } else {
        s.outtake_long_start matches Some(start) && elapsed(start, now) >= s.outtake_reverse_duration
    }
}

/// The intake request of an update: later rules in the button map override
/// earlier ones.
pub open spec fn intake_request(s: DriverView, b: DriverButtons, now: u64) -> Option<Option<IntakeControl>> {
    if all_intake_released(b) {
        Some(None)
    } else if b.r2.spec_now_pressed() {
        Some(Some(command_control(true, OuttakeMode::Off)))
    } else if b.r1.spec_now_pressed() {
        Some(Some(command_control(false, OuttakeMode::Off)))
    } else if b.l2.spec_now_pressed() {
        Some(Some(command_control(false, OuttakeMode::TopMiddle)))
    } else if anti_jam_over(s, b, now) {
        Some(Some(command_control(false, OuttakeMode::Long)))
    } else if b.l1.spec_now_pressed() {
        Some(Some(anti_jam_control()))
    } else {
        None
    }
}

/// When the anti-jam period started, after an update.
pub open spec fn next_outtake_long_start(s: DriverView, b: DriverButtons, now: u64) -> Option<u64> {
    if all_intake_released(b) || anti_jam_over(s, b, now) {
        None
    } else if b.l1.spec_now_pressed() {
        Some(now)
    } else {
        s.outtake_long_start
    }
}

/// The state after a controller update.
pub open spec fn next_state(s: DriverView, b: DriverButtons, now: u64) -> DriverView {
    DriverView {
        double_park: if b.power.spec_now_pressed() {
            !s.double_park
        } else {
            s.double_park
        },
        outtake_long_start: next_outtake_long_start(s, b, now),
        outtake_reverse_duration: s.outtake_reverse_duration,
    }
}

/// The actions of a controller update.
pub open spec fn step_actions(s: DriverView, b: DriverButtons, now: u64) -> DriverActions {
    DriverActions {
        intake: intake_request(s, b, now),
        toggle_match_loader: b.a.spec_now_pressed(),
        toggle_descore_arm: b.x.spec_now_pressed(),
        double_park: if !b.power.spec_now_pressed() {
            None
        } else if s.double_park {
            Some(DoubleParkAction::Retract)
        } else {
            Some(DoubleParkAction::Start)
        },
    }
}

impl DriverState {
    /// Driver control before the first update: double park retracted, no
    /// anti-jam period running. `outtake_reverse_duration` is how long L1 runs
    /// the balls backwards before outtaking to the long goal.
    pub fn new(outtake_reverse_duration: u64) -> (res: DriverState)
        ensures
            res@ == (DriverView { double_park: false, outtake_long_start: None, outtake_reverse_duration }),
    {
        DriverState { double_park: false, outtake_long_start: None, outtake_reverse_duration }
    }

    /// Whether the double park is extended.
    pub fn double_park(&self) -> (res: bool)
        ensures
            res == self@.double_park,
    {
        self.double_park
    }

    /// When the running anti-jam period started, if one is running.
    pub fn outtake_long_start(&self) -> (res: Option<u64>)
        ensures
            res == self@.outtake_long_start,
    {
        self.outtake_long_start
    }

    /// One controller update at time `now`.
    pub fn step(&mut self, buttons: &DriverButtons, now: u64) -> (res: DriverActions)
        ensures
            final(self)@ == next_state(old(self)@, *buttons, now),
            res == step_actions(old(self)@, *buttons, now),
    {
        let mut intake: Option<Option<IntakeControl>> = None;
        // L1 starts outtake long, running the balls backwards first
        if buttons.l1.is_now_pressed() {
            intake = Some(Some(IntakeControl { reverse: true, run_intake: false, outtake: OuttakeMode::TopMiddle, ..Default::default() }));
            self.outtake_long_start = Some(now);
        }
        // Once the anti-jam period is over, outtake long
        match self.outtake_long_start {
            Some(start) => {
                let elapsed: u64 = if start <= now { now - start } else { 0 };
                if elapsed >= self.outtake_reverse_duration {
                    intake = Some(Some(IntakeControl { reverse: false, outtake: OuttakeMode::Long, ..Default::default() }));
                    self.outtake_long_start = None;
                }
            },
            None => {},
        }
        if buttons.l2.is_now_pressed() {
            intake = Some(Some(IntakeControl { reverse: false, outtake: OuttakeMode::TopMiddle, ..Default::default() }));
        }
        if buttons.r1.is_now_pressed() {
            intake = Some(Some(IntakeControl { reverse: false, outtake: OuttakeMode::Off, ..Default::default() }));
        }
        if buttons.r2.is_now_pressed() {
            intake = Some(Some(IntakeControl { reverse: true, outtake: OuttakeMode::Off, ..Default::default() }));
        }
        // Releasing the last held intake button stops the intake
        if (buttons.l1.is_now_released() || buttons.l2.is_now_released() || buttons.r1.is_now_released()
            || buttons.r2.is_now_released()) && !(buttons.l1.is_pressed() || buttons.l2.is_pressed()
            || buttons.r1.is_pressed() || buttons.r2.is_pressed()) {
            intake = Some(None);
            self.outtake_long_start = None;
        }
        let mut double_park: Option<DoubleParkAction> = None;
        if buttons.power.is_now_pressed() {
            self.double_park = !self.double_park;
            double_park = if self.double_park {
                Some(DoubleParkAction::Start)
            } else {
                Some(DoubleParkAction::Retract)
            };
        }
        DriverActions {
            intake,
            toggle_match_loader: buttons.a.is_now_pressed(),
            toggle_descore_arm: buttons.x.is_now_pressed(),
            double_park,
        }
    }
}

/// What driver control does when it starts: stop the intake.
pub fn startup_actions() -> (res: DriverActions)
    ensures
        res == (DriverActions {
            intake: Some(None),
            toggle_match_loader: false,
            toggle_descore_arm: false,
            double_park: None,
        }),
{
    DriverActions { intake: Some(None), toggle_match_loader: false, toggle_descore_arm: false, double_park: None }
}

/// One step of the double park sequence.
#[derive(Clone, Copy, Debug, PartialEq, Eq, Structural)]
pub enum ParkStep {
    /// Set the intake's control state.
    SetIntake(Option<IntakeControl>),
    /// Wait until the intake detects a ball, with no timeout.
    WaitForBall,
    /// Wait this many microseconds.
    Sleep(u64),
    /// Extend the double park mechanism.
    ExtendDoublePark,
}

/// Reverse intake at a given speed, the top stage holding.
pub open spec fn reverse_at(speed: u16) -> IntakeControl {
    IntakeControl { speed, ..command_control(true, OuttakeMode::Off) }
}

pub open spec fn double_park_steps() -> Seq<ParkStep> {
    seq![
        ParkStep::SetIntake(Some(reverse_at(500))),
        ParkStep::WaitForBall,
        ParkStep::Sleep(50_000),
        ParkStep::SetIntake(Some(reverse_at(250))),
        ParkStep::Sleep(50_000),
        ParkStep::SetIntake(None),
        ParkStep::ExtendDoublePark,
    ]
}

/// The double park sequence: reverse the intake slowly until the ball sits
/// right, then slower still, stop, and extend the mechanism to lift the robot.
pub fn double_park_sequence() -> (res: Vec<ParkStep>)
    ensures
        res@ == double_park_steps(),
{
    let mut steps: Vec<ParkStep> = Vec::new();
    steps.push(ParkStep::SetIntake(Some(IntakeControl { reverse: true, outtake: OuttakeMode::Off, speed: 500, ..Default::default() })));
    steps.push(ParkStep::WaitForBall);
    steps.push(ParkStep::Sleep(50_000));
    steps.push(ParkStep::SetIntake(Some(IntakeControl { reverse: true, outtake: OuttakeMode::Off, speed: 250, ..Default::default() })));
    steps.push(ParkStep::Sleep(50_000));
    steps.push(ParkStep::SetIntake(None));
    steps.push(ParkStep::ExtendDoublePark);
    steps
}

/// A button that stays as it was (held or not) has no edge in this update.
pub open spec fn steady(b: ButtonState) -> bool {
    b.prev_pressed == b.pressed
}

/// The anti-jam sequence of L1: pressing L1 at `t` runs the balls backwards
/// and starts the period; while L1 stays held and no other intake button
/// changes, the first update at least `outtake_reverse_duration` after `t`
/// switches to outtake long and ends the period.
pub proof fn l1_runs_anti_jam_then_outtakes_long(s: DriverView, press: DriverButtons, hold: DriverButtons, t: u64, later: u64)
    requires
        press.l1.spec_now_pressed(),
        !press.l2.spec_now_pressed() && !press.r1.spec_now_pressed() && !press.r2.spec_now_pressed(),
        s.outtake_reverse_duration > 0,
        hold.l1.prev_pressed && hold.l1.pressed,
        steady(hold.l2) && steady(hold.r1) && steady(hold.r2),
        t <= later,
    ensures
        step_actions(s, press, t).intake == Some(Some(anti_jam_control())),
        next_state(s, press, t).outtake_long_start == Some(t),
        later - t >= s.outtake_reverse_duration ==> {
            &&& step_actions(next_state(s, press, t), hold, later).intake
                == Some(Some(command_control(false, OuttakeMode::Long)))
            &&& next_state(next_state(s, press, t), hold, later).outtake_long_start is None
        },
        later - t < s.outtake_reverse_duration ==> {
            &&& step_actions(next_state(s, press, t), hold, later).intake is None
            &&& next_state(next_state(s, press, t), hold, later).outtake_long_start == Some(t)
        },
{
}

/// Releasing the last held intake button stops the intake and ends any
/// anti-jam period, whatever else the update holds.
pub proof fn releasing_all_intake_buttons_stops(s: DriverView, b: DriverButtons, now: u64)
    requires
        all_intake_released(b),
    ensures
        step_actions(s, b, now).intake == Some(None::<IntakeControl>),
        next_state(s, b, now).outtake_long_start is None,
{
}

/// Pressing the power button twice starts the double park, then retracts it,
/// and leaves the double park as it was.
pub proof fn power_button_toggles_double_park(s: DriverView, b1: DriverButtons, b2: DriverButtons, t1: u64, t2: u64)
    requires
        !s.double_park,
        b1.power.spec_now_pressed(),
        b2.power.spec_now_pressed(),
    ensures
        step_actions(s, b1, t1).double_park == Some(DoubleParkAction::Start),
        step_actions(next_state(s, b1, t1), b2, t2).double_park == Some(DoubleParkAction::Retract),
        next_state(next_state(s, b1, t1), b2, t2).double_park == s.double_park,
{
}

/// An update in which no button changes, with no anti-jam period running,
/// asks nothing and changes nothing.
pub proof fn quiet_update_does_nothing(s: DriverView, b: DriverButtons, now: u64)
    requires
        s.outtake_long_start is None,
        steady(b.l1) && steady(b.l2) && steady(b.r1) && steady(b.r2),
        steady(b.a) && steady(b.x) && steady(b.power),
    ensures
        step_actions(s, b, now) == (DriverActions {
            intake: None,
            toggle_match_loader: false,
            toggle_descore_arm: false,
            double_park: None,
        }),
        next_state(s, b, now) == s,
{
}

/// Releasing the last held intake button stops the intake, whichever of the
/// four it is: where one of L1, L2, R1, R2 goes up in an update and none of the
/// four is held, the update asks the intake to stop and ends any anti-jam
/// period. Where one of them is held, or none went up, releasing asks nothing
/// of this kind.
pub proof fn any_last_intake_release_stops(s: DriverView, b: DriverButtons, now: u64)
    ensures
        ({
            let released = (b.l1.prev_pressed && !b.l1.pressed) || (b.l2.prev_pressed && !b.l2.pressed)
                || (b.r1.prev_pressed && !b.r1.pressed) || (b.r2.prev_pressed && !b.r2.pressed);
            let none_held = !b.l1.pressed && !b.l2.pressed && !b.r1.pressed && !b.r2.pressed;
            released && none_held ==> {
                &&& step_actions(s, b, now).intake == Some(None::<IntakeControl>)
                &&& next_state(s, b, now).outtake_long_start is None
            }
        }),
        ({
            let released = (b.l1.prev_pressed && !b.l1.pressed) || (b.l2.prev_pressed && !b.l2.pressed)
                || (b.r1.prev_pressed && !b.r1.pressed) || (b.r2.prev_pressed && !b.r2.pressed);
            let none_held = !b.l1.pressed && !b.l2.pressed && !b.r1.pressed && !b.r2.pressed;
            step_actions(s, b, now).intake == Some(None::<IntakeControl>) ==> released && none_held
        }),
{
}

/// R2 pressed and then released on its own: the first update reverses the
/// intake at full speed, the second stops it.
pub proof fn r2_press_then_release_stops(s: DriverView, press: DriverButtons, release: DriverButtons, t1: u64, t2: u64)
    requires
        !press.r2.prev_pressed && press.r2.pressed,
        release.r2.prev_pressed && !release.r2.pressed,
        !release.l1.pressed && !release.l2.pressed && !release.r1.pressed,
    ensures
        step_actions(s, press, t1).intake == Some(Some(IntakeControl {
            reverse: true,
            run_intake: true,
            outtake: OuttakeMode::Off,
            speed: 1000,
        })),
        step_actions(next_state(s, press, t1), release, t2).intake == Some(None::<IntakeControl>),
{
}

} // verus!
