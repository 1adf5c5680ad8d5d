//! The lift subsystem, which lifts balls to different heights.
//!
//! The lower motor drives the chain-driven lift. The upper motor decides the
//! final height: spinning the same way as the lower motor lets the balls reach
//! the high goal; spinning the other way squeezes them out at the medium goal.
use vstd::prelude::*;

use crate::intake::{BrakeMode, MotorOutput, FULL_SPEED};
use crate::ports::PortError;

verus! {

/// An error of the lift subsystem.
#[derive(Clone, Copy, Debug, PartialEq, Eq, Structural)]
pub enum LiftError {
    /// A lift motor's port failed.
    Port { source: PortError },
}

/// What the two lift motors are told to do, lower motor first.
#[derive(Clone, Copy, Debug, PartialEq, Eq, Structural)]
pub struct LiftOutputs {
    pub lower: MotorOutput,
    pub upper: MotorOutput,
}

/// Outputs for the medium goal: lower motor forwards, upper motor backwards,
/// both at full voltage.
pub open spec fn medium_outputs() -> LiftOutputs {
    LiftOutputs {
        lower: MotorOutput::Voltage(FULL_SPEED as i32),
        upper: MotorOutput::Voltage((-(FULL_SPEED as int)) as i32),
    }
}

/// Outputs for the high goal: both motors forwards at full voltage.
pub open spec fn high_outputs() -> LiftOutputs {
    LiftOutputs {
        lower: MotorOutput::Voltage(FULL_SPEED as i32),
        upper: MotorOutput::Voltage(FULL_SPEED as i32),
    }
}

/// The lift subsystem.
#[derive(Clone, Copy, Debug, PartialEq, Eq, Structural)]
pub struct Lift {}

impl Lift {
    pub fn new() -> (res: Lift)
        ensures
            res == (Lift {}),
    {
        Lift {}
    }

    /// Lift balls to the medium goal: lower motor forwards at full voltage,
    /// upper motor backwards at full voltage.
    pub fn lift_to_medium(&self) -> (res: LiftOutputs)
        ensures
            res == medium_outputs(),
    {
        let full: i32 = FULL_SPEED as i32;
        LiftOutputs { lower: MotorOutput::Voltage(full), upper: MotorOutput::Voltage(-full) }
    }

    /// Lift balls to the high goal: both motors forwards at full voltage.
    pub fn lift_to_high(&self) -> (res: LiftOutputs)
        ensures
            res == high_outputs(),
    {
        let full: i32 = FULL_SPEED as i32;
        LiftOutputs { lower: MotorOutput::Voltage(full), upper: MotorOutput::Voltage(full) }
    }

    /// Stop the lift, braking so that the balls do not fall out.
    pub fn brake(&self) -> (res: LiftOutputs)
        ensures
            res == (LiftOutputs {
                lower: MotorOutput::Brake(BrakeMode::Brake),
                upper: MotorOutput::Brake(BrakeMode::Brake),
            }),
    {
        LiftOutputs { lower: MotorOutput::Brake(BrakeMode::Brake), upper: MotorOutput::Brake(BrakeMode::Brake) }
    }
}

/// The result of applying lift outputs, given what the lower motor's command
/// gave and, where it was sent, what the upper motor's command gave. The upper
/// command is sent only after the lower one succeeded.
pub open spec fn lift_result_spec(lower: Result<(), PortError>, upper: Option<Result<(), PortError>>) -> Result<(), LiftError> {
    match lower {
        Err(source) => Err(LiftError::Port { source }),
        Ok(()) => match upper {
            Some(Err(source)) => Err(LiftError::Port { source }),
            _ => Ok(()),
        },
    }
}

/// Whether the upper motor's command is to be sent, given what the lower
/// motor's command gave: only after the lower one succeeded.
pub fn sends_upper(lower: &Result<(), PortError>) -> (res: bool)
    ensures
        res == (*lower is Ok),
{
    lower.is_ok()
}

/// Combines the results of the two motor commands into the lift's result.
pub fn lift_result(lower: Result<(), PortError>, upper: Option<Result<(), PortError>>) -> (res: Result<(), LiftError>)
    ensures
        res == lift_result_spec(lower, upper),
{
    match lower {
        Err(source) => Err(LiftError::Port { source }),
        Ok(()) => match upper {
            Some(Err(source)) => Err(LiftError::Port { source }),
            _ => Ok(()),
        },
    }
}

/// Where the lower motor's command failed, the lift's result is that failure,
/// whatever the upper motor would have given.
pub proof fn lower_failure_decides(source: PortError, upper: Option<Result<(), PortError>>)
    ensures
        lift_result_spec(Err(source), upper) == Err::<(), LiftError>(LiftError::Port { source }),
{
}

/// The medium and high goals drive the lower motor alike and differ only in the
/// upper motor's direction: with it for the high goal, against it for the
/// medium goal.
pub proof fn medium_and_high_differ_in_upper_direction()
    ensures
        medium_outputs().lower == high_outputs().lower,
        medium_outputs().upper matches MotorOutput::Voltage(m) && high_outputs().upper matches MotorOutput::Voltage(h)
            && m == -h && h > 0,
{
}

} // verus!
