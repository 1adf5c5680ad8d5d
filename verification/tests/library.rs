use teama::intake::{
    motor_outputs, BallDetectedFuture, BrakeMode, Intake, IntakeControl, IntakeOutputs, MotorOutput,
    OuttakeMode, FULL_SPEED,
};
use teama::lift::{lift_result, Lift, LiftError, LiftOutputs};
use teama::opcontrol::{
    double_park_sequence, startup_actions, ButtonState, DoubleParkAction, DriverActions, DriverButtons,
    DriverState, ParkStep,
};
use teama::ports::{DeviceDisconnectedErrorExt, DisconnectedPorts, PortError, SmartDeviceType};
use teama::routes::{
    long_goal_outtake_ms, match_load_hold_ms, outtake_after_calibration_ms, preselected_route, route_catalogue,
    testing_route_index, Category, OnceTrigger, GOAL_CALIBRATE_DURATION_MS, GOAL_OUTTAKE_DURATION_MS,
    MATCH_LOAD_DURATION_MS,
};
use teama::selector::{calibrating_calibrating, uptime_parts};

#[test]
fn it_adds_two() {
    assert_eq!(2 + 2, 4);
}

const UP: ButtonState = ButtonState { prev_pressed: false, pressed: false };
const DOWN: ButtonState = ButtonState { prev_pressed: false, pressed: true };
const HELD: ButtonState = ButtonState { prev_pressed: true, pressed: true };
const RELEASED: ButtonState = ButtonState { prev_pressed: true, pressed: false };

fn buttons() -> DriverButtons {
    DriverButtons { l1: UP, l2: UP, r1: UP, r2: UP, a: UP, x: UP, power: UP }
}

fn control(reverse: bool, outtake: OuttakeMode) -> IntakeControl {
    IntakeControl { reverse, run_intake: true, outtake, speed: 1000 }
}

const NOTHING: DriverActions =
    DriverActions { intake: None, toggle_match_loader: false, toggle_descore_arm: false, double_park: None };

// Intake

#[test]
fn intake_control_default() {
    let c = IntakeControl::default();
    assert_eq!(c, IntakeControl { reverse: false, run_intake: true, outtake: OuttakeMode::Off, speed: FULL_SPEED });
}

#[test]
fn new_intake_is_stopped() {
    let intake = Intake::new(100);
    assert_eq!(intake.control(), None);
    assert!(!intake.ball_detected());
    assert_eq!(
        intake.outputs(),
        IntakeOutputs {
            intake: MotorOutput::Brake(BrakeMode::Coast),
            middle: MotorOutput::Brake(BrakeMode::Coast),
            top: MotorOutput::Brake(BrakeMode::Coast),
        }
    );
}

#[test]
fn intake_commands_read_back() {
    let mut intake = Intake::new(100);
    intake.intake();
    assert_eq!(intake.control(), Some(control(false, OuttakeMode::Off)));
    intake.reverse_intake();
    assert_eq!(intake.control(), Some(control(true, OuttakeMode::Off)));
    intake.outtake_long();
    assert_eq!(intake.control(), Some(control(false, OuttakeMode::Long)));
    intake.outtake_top_middle();
    assert_eq!(intake.control(), Some(control(false, OuttakeMode::TopMiddle)));
    let slow = IntakeControl { reverse: true, run_intake: false, outtake: OuttakeMode::Long, speed: 250 };
    intake.set_control(Some(slow));
    assert_eq!(intake.control(), Some(slow));
    intake.brake();
    assert_eq!(intake.control(), None);
    assert!(!intake.ball_detected());
}

#[test]
fn intake_forward_outputs() {
    assert_eq!(
        motor_outputs(Some(control(false, OuttakeMode::Off))),
        IntakeOutputs {
            intake: MotorOutput::Voltage(1000),
            middle: MotorOutput::Voltage(1000),
            top: MotorOutput::Brake(BrakeMode::Hold),
        }
    );
}

#[test]
fn intake_reverse_outputs_mirror_forward() {
    assert_eq!(
        motor_outputs(Some(control(true, OuttakeMode::Long))),
        IntakeOutputs {
            intake: MotorOutput::Voltage(-1000),
            middle: MotorOutput::Voltage(-1000),
            top: MotorOutput::Voltage(-1000),
        }
    );
    assert_eq!(
        motor_outputs(Some(control(false, OuttakeMode::Long))),
        IntakeOutputs {
            intake: MotorOutput::Voltage(1000),
            middle: MotorOutput::Voltage(1000),
            top: MotorOutput::Voltage(1000),
        }
    );
}

#[test]
fn top_middle_turns_top_against_middle() {
    let out = motor_outputs(Some(control(false, OuttakeMode::TopMiddle)));
    assert_eq!(out.middle, MotorOutput::Voltage(1000));
    assert_eq!(out.top, MotorOutput::Voltage(-1000));
}

#[test]
fn outputs_scale_with_speed_and_coast_front_when_not_running() {
    let c = IntakeControl { reverse: true, run_intake: false, outtake: OuttakeMode::TopMiddle, speed: 500 };
    assert_eq!(
        motor_outputs(Some(c)),
        IntakeOutputs {
            intake: MotorOutput::Brake(BrakeMode::Coast),
            middle: MotorOutput::Voltage(-500),
            top: MotorOutput::Voltage(500),
        }
    );
}

#[test]
fn ball_detection_from_distance() {
    let mut intake = Intake::new(100);
    intake.record_distance(Some(Some(40)));
    assert!(intake.ball_detected());
    // a failed read keeps the previous answer
    intake.record_distance(None);
    assert!(intake.ball_detected());
    // at the threshold is not a ball
    intake.record_distance(Some(Some(100)));
    assert!(!intake.ball_detected());
    intake.record_distance(Some(Some(99)));
    assert!(intake.ball_detected());
    intake.record_distance(Some(None));
    assert!(!intake.ball_detected());
    intake.record_distance(None);
    assert!(!intake.ball_detected());
}

#[test]
fn ball_wait_outcomes() {
    let wait = BallDetectedFuture::new(1_000, Some(500));
    assert_eq!(wait.timeout, Some(1_500));
    assert_eq!(wait.check(false, 1_200), None);
    assert_eq!(wait.check(true, 1_200), Some(true));
    assert_eq!(wait.check(false, 1_500), Some(false));
    assert_eq!(wait.check(false, 9_000), Some(false));
    assert_eq!(wait.check(true, 9_000), Some(true));
}

#[test]
fn ball_wait_without_timeout_waits_for_ever() {
    let wait = BallDetectedFuture::new(1_000, None);
    assert_eq!(wait.timeout, None);
    assert_eq!(wait.check(false, u64::MAX), None);
    assert_eq!(wait.check(true, 0), Some(true));
}

// Driver control

#[test]
fn startup_stops_intake() {
    assert_eq!(
        startup_actions(),
        DriverActions { intake: Some(None), toggle_match_loader: false, toggle_descore_arm: false, double_park: None }
    );
}

#[test]
fn l1_anti_jam_then_outtake_long() {
    let mut s = DriverState::new(300_000);
    let mut b = buttons();
    b.l1 = DOWN;
    let a = s.step(&b, 1_000_000);
    assert_eq!(
        a.intake,
        Some(Some(IntakeControl { reverse: true, run_intake: false, outtake: OuttakeMode::TopMiddle, speed: 1000 }))
    );
    assert_eq!(s.outtake_long_start(), Some(1_000_000));
    b.l1 = HELD;
    assert_eq!(s.step(&b, 1_200_000), NOTHING);
    assert_eq!(s.outtake_long_start(), Some(1_000_000));
    let a = s.step(&b, 1_300_000);
    assert_eq!(a.intake, Some(Some(control(false, OuttakeMode::Long))));
    assert_eq!(s.outtake_long_start(), None);
    assert_eq!(s.step(&b, 2_000_000), NOTHING);
}

#[test]
fn zero_anti_jam_outtakes_long_at_once() {
    let mut s = DriverState::new(0);
    let mut b = buttons();
    b.l1 = DOWN;
    let a = s.step(&b, 5);
    assert_eq!(a.intake, Some(Some(control(false, OuttakeMode::Long))));
    assert_eq!(s.outtake_long_start(), None);
}

#[test]
fn releasing_all_intake_buttons_stops_intake() {
    let mut s = DriverState::new(300_000);
    let mut b = buttons();
    b.l1 = DOWN;
    s.step(&b, 0);
    b.l1 = RELEASED;
    let a = s.step(&b, 100);
    assert_eq!(a.intake, Some(None));
    assert_eq!(s.outtake_long_start(), None);
}

#[test]
fn releasing_one_of_two_buttons_keeps_intake() {
    let mut s = DriverState::new(300_000);
    let mut b = buttons();
    b.r1 = RELEASED;
    b.r2 = HELD;
    assert_eq!(s.step(&b, 0).intake, None);
}

#[test]
fn later_buttons_override_earlier_ones() {
    let mut s = DriverState::new(300_000);
    let mut b = buttons();
    b.r1 = DOWN;
    assert_eq!(s.step(&b, 0).intake, Some(Some(control(false, OuttakeMode::Off))));
    b.r1 = HELD;
    b.r2 = DOWN;
    assert_eq!(s.step(&b, 1).intake, Some(Some(control(true, OuttakeMode::Off))));
    b.r2 = HELD;
    b.l2 = DOWN;
    assert_eq!(s.step(&b, 2).intake, Some(Some(control(false, OuttakeMode::TopMiddle))));
    let mut both = buttons();
    both.l2 = DOWN;
    both.r2 = DOWN;
    assert_eq!(s.step(&both, 3).intake, Some(Some(control(true, OuttakeMode::Off))));
}

#[test]
fn toggles_and_double_park() {
    let mut s = DriverState::new(300_000);
    let mut b = buttons();
    b.a = DOWN;
    b.x = DOWN;
    b.power = DOWN;
    let a = s.step(&b, 0);
    assert!(a.toggle_match_loader);
    assert!(a.toggle_descore_arm);
    assert_eq!(a.double_park, Some(DoubleParkAction::Start));
    assert!(s.double_park());
    b.a = HELD;
    b.x = HELD;
    b.power = HELD;
    assert_eq!(s.step(&b, 1), NOTHING);
    b.power = RELEASED;
    assert_eq!(s.step(&b, 2).double_park, None);
    b.power = DOWN;
    assert_eq!(s.step(&b, 3).double_park, Some(DoubleParkAction::Retract));
    assert!(!s.double_park());
}

#[test]
fn quiet_update_does_nothing() {
    let mut s = DriverState::new(300_000);
    assert_eq!(s.step(&buttons(), 42), NOTHING);
    assert!(!s.double_park());
    assert_eq!(s.outtake_long_start(), None);
}

#[test]
fn button_edges() {
    assert!(DOWN.is_now_pressed() && DOWN.is_pressed() && !DOWN.is_now_released());
    assert!(RELEASED.is_now_released() && !RELEASED.is_pressed() && !RELEASED.is_now_pressed());
    assert!(!HELD.is_now_pressed() && !HELD.is_now_released() && HELD.is_pressed());
    assert!(!UP.is_now_pressed() && !UP.is_now_released() && !UP.is_pressed());
}

#[test]
fn double_park_sequence_steps() {
    let slow = |speed: u16| IntakeControl { reverse: true, run_intake: true, outtake: OuttakeMode::Off, speed };
    assert_eq!(
        double_park_sequence(),
        vec![
            ParkStep::SetIntake(Some(slow(500))),
            ParkStep::WaitForBall,
            ParkStep::Sleep(50_000),
            ParkStep::SetIntake(Some(slow(250))),
            ParkStep::Sleep(50_000),
            ParkStep::SetIntake(None),
            ParkStep::ExtendDoublePark,
        ]
    );
}

// Lift

#[test]
fn lift_outputs() {
    let lift = Lift::new();
    assert_eq!(
        lift.lift_to_medium(),
        LiftOutputs { lower: MotorOutput::Voltage(1000), upper: MotorOutput::Voltage(-1000) }
    );
    assert_eq!(lift.lift_to_high(), LiftOutputs { lower: MotorOutput::Voltage(1000), upper: MotorOutput::Voltage(1000) });
    assert_eq!(
        lift.brake(),
        LiftOutputs { lower: MotorOutput::Brake(BrakeMode::Brake), upper: MotorOutput::Brake(BrakeMode::Brake) }
    );
}

#[test]
fn lift_errors() {
    let first = PortError::Disconnected { port: 4 };
    let second = PortError::IncorrectDevice {
        expected: SmartDeviceType::Motor,
        actual: SmartDeviceType::Distance,
        port: 5,
    };
    assert_eq!(lift_result(Ok(()), Some(Ok(()))), Ok(()));
    assert_eq!(lift_result(Err(first), None), Err(LiftError::Port { source: first }));
    assert_eq!(lift_result(Ok(()), Some(Err(second))), Err(LiftError::Port { source: second }));
}

// Port errors

#[test]
fn report_if_error_passes_values() {
    let mut reported = DisconnectedPorts::new();
    let ok: Result<u32, PortError> = Ok(7);
    assert_eq!(ok.report_if_error(&mut reported), Some(7));
    assert_eq!(reported.len(), 0);
}

#[test]
fn disconnects_are_reported_once_per_port() {
    let mut reported = DisconnectedPorts::new();
    let err: Result<u32, PortError> = Err(PortError::Disconnected { port: 3 });
    assert_eq!(err.report_if_error(&mut reported), None);
    assert!(reported.contains(3));
    assert_eq!(reported.len(), 1);
    assert_eq!(err.report_if_error(&mut reported), None);
    assert_eq!(reported.len(), 1);
    let other: Result<u32, PortError> = Err(PortError::Disconnected { port: 9 });
    assert_eq!(other.report_if_error(&mut reported), None);
    assert_eq!(reported.len(), 2);
    assert!(!reported.contains(4));
}

#[test]
fn record_tells_first_reports() {
    let mut reported = DisconnectedPorts::new();
    assert!(reported.record(12));
    assert!(!reported.record(12));
    assert!(reported.record(13));
    assert_eq!(reported.len(), 2);
}

// Routes and selector

#[test]
fn category_names() {
    assert_eq!(Category::Left.to_string(), "Left");
    assert_eq!(Category::Right.to_string(), "Right");
    assert_eq!(Category::Other.to_string(), "Other");
    assert!(Category::Left < Category::Right && Category::Right < Category::Other);
}

#[test]
fn testing_route_is_skills() {
    let routes = route_catalogue();
    assert_eq!(routes.len(), 7);
    assert_eq!(testing_route_index(), Some(6));
    let i = testing_route_index().unwrap();
    assert_eq!(routes[i].name, "Skills");
    assert_eq!(routes[i].category, Category::Other);
    assert_eq!(routes[0].name, "Left primary");
    assert_eq!(routes[3].category, Category::Right);
    assert_eq!(routes[4].description, "No-op. Nothing.");
}

#[test]
fn preselection_only_on_competition_switch() {
    assert_eq!(preselected_route(true), Some(6));
    assert_eq!(preselected_route(false), None);
}

#[test]
fn once_trigger_fires_once() {
    let mut t = OnceTrigger::new();
    assert!(!t.check(false));
    assert!(t.check(true));
    assert!(!t.check(true));
    assert!(!t.check(false));
    assert!(t.triggered);
}

#[test]
fn calibration_status() {
    assert!(calibrating_calibrating(None));
    assert!(!calibrating_calibrating(Some(None)));
    assert!(calibrating_calibrating(Some(Some(true))));
    assert!(!calibrating_calibrating(Some(Some(false))));
}

#[test]
fn uptime_split() {
    assert_eq!(uptime_parts(0), (0, 0));
    assert_eq!(uptime_parts(59), (0, 59));
    assert_eq!(uptime_parts(61), (1, 1));
    assert_eq!(uptime_parts(3_725), (62, 5));
}

#[test]
fn route_timings() {
    assert_eq!(outtake_after_calibration_ms(), 1200);
    assert_eq!(outtake_after_calibration_ms() + GOAL_CALIBRATE_DURATION_MS, GOAL_OUTTAKE_DURATION_MS);
    assert_eq!(MATCH_LOAD_DURATION_MS, 2750);
    assert_eq!(match_load_hold_ms(true), 3000);
    assert_eq!(match_load_hold_ms(false), 1200);
    assert_eq!(long_goal_outtake_ms(true), 8000);
    assert_eq!(long_goal_outtake_ms(false), 3000);
}

#[test]
fn upper_lift_motor_only_after_lower_succeeds() {
    assert!(teama::lift::sends_upper(&Ok(())));
    assert!(!teama::lift::sends_upper(&Err(PortError::Disconnected { port: 2 })));
}

#[test]
fn report_count_grows_only_on_first_report() {
    let mut reported = DisconnectedPorts::new();
    let err: Result<u8, PortError> = Err(PortError::Disconnected { port: 21 });
    let before = reported.len();
    assert_eq!(err.report_if_error(&mut reported), None);
    assert_eq!(reported.len(), before + 1);
    assert_eq!(err.report_if_error(&mut reported), None);
    assert_eq!(reported.len(), before + 1);
    let ok: Result<u8, PortError> = Ok(3);
    assert_eq!(ok.report_if_error(&mut reported), Some(3));
    assert_eq!(reported.len(), before + 1);
}
