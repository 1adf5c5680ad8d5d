//! What the route selector's screen shows about the robot.
use vstd::prelude::*;

verus! {

/// Whether the inertial sensor counts as calibrating. `reading` is `None` where
/// the sensor is in use elsewhere (then it is taken to be calibrating),
/// `Some(None)` where reading its state failed (then it is taken not to be), and
/// `Some(Some(c))` where the sensor reported `c`.
pub fn calibrating_calibrating(reading: Option<Option<bool>>) -> (res: bool)
    ensures
        res == (match reading {
            None => true,
            Some(None) => false,
            Some(Some(calibrating)) => calibrating,
        }),
{
    match reading {
        None => true,
        Some(state) => match state {
            Some(calibrating) => calibrating,
            None => false,
        },
    }
}

/// The system uptime as whole minutes and the seconds left over, as the
/// diagnostics screen shows it ("{minutes}m {seconds}s").
pub fn uptime_parts(seconds: u64) -> (res: (u64, u64))
    ensures
        res.0 == seconds / 60,
        res.1 == seconds % 60,
        res.0 * 60 + res.1 == seconds,
        res.1 < 60,
{
    (seconds / 60, seconds % 60)
}

} // verus!
