//! Smart port errors, and reporting of disconnected devices once per port.
use std::collections::HashSet;

use vstd::prelude::*;

verus! {

broadcast use vstd::std_specs::hash::group_hash_axioms;

/// The kind of device on a smart port.
#[derive(Clone, Copy, Debug, PartialEq, Eq, Structural)]
pub enum SmartDeviceType {
    Motor,
    Rotation,
    Imu,
    Distance,
    Vision,
    AiVision,
    Electromagnet,
    LightTower,
    Arm,
    Optical,
    Gps,
    Radio,
    Adi,
    GenericSerial,
    /// Another device type code.
    Unknown(u8),
}

/// An error of an operation on a smart port.
#[derive(Clone, Copy, Debug, PartialEq, Eq, Structural)]
pub enum PortError {
    /// No device was plugged into the port, when one was expected.
    Disconnected { port: u8 },
    /// The wrong type of device is plugged into the port.
    IncorrectDevice { expected: SmartDeviceType, actual: SmartDeviceType, port: u8 },
}

/// The ports that have had a disconnect reported, so that each is reported
/// once rather than on every failed operation.
pub struct DisconnectedPorts {
    ports: HashSet<u8>,
}

impl View for DisconnectedPorts {
    type V = Set<u8>;

    closed spec fn view(&self) -> Set<u8> {
        self.ports@
    }
}

impl DisconnectedPorts {
    /// Only finitely many ports are noted.
    #[verifier::type_invariant]
    spec fn finitely_many(&self) -> bool {
        self.ports@.finite()
    }

    /// No port reported yet.
    pub fn new() -> (res: DisconnectedPorts)
        ensures
            res@ == Set::<u8>::empty(),
            res@.finite(),
    {
        DisconnectedPorts { ports: HashSet::new() }
    }

    /// Whether a disconnect on `port` has been reported.
    pub fn contains(&self, port: u8) -> (res: bool)
        ensures
            res == self@.contains(port),
            self@.finite(),
    {
        proof {
            use_type_invariant(self);
        }
        self.ports.contains(&port)
    }

    /// How many ports have had a disconnect reported.
    pub fn len(&self) -> (res: usize)
        ensures
            res == self@.len(),
            self@.finite(),
    {
        proof {
            use_type_invariant(self);
        }
        self.ports.len()
    }

    /// Notes a disconnect on `port`. The result is whether this is the port's
    /// first report, the one that is to be logged.
    pub fn record(&mut self, port: u8) -> (first: bool)
        ensures
            first == !old(self)@.contains(port),
            final(self)@ == old(self)@.insert(port),
            final(self)@.finite(),
            final(self)@.len() == (if first { old(self)@.len() + 1 } else { old(self)@.len() }),
    {
        proof {
            use_type_invariant(&*self);
        }
        let mut ports: HashSet<u8> = HashSet::new();
        std::mem::swap(&mut ports, &mut self.ports);
        let first = ports.insert(port);
        self.ports = ports;
        first
    }
}

/// Turns a port result into an optional value, reporting disconnected
/// devices once per port instead of failing.
pub trait DeviceDisconnectedErrorExt<T>: Sized {
    /// The error is a device of the wrong type, on which reporting panics to
    /// avoid masking a configuration error.
    spec fn is_incorrect_device(&self) -> bool;

    /// The value that reporting gives back.
    spec fn reported_value(&self) -> Option<T>;

    /// The port that the error reports as disconnected, if any.
    spec fn disconnected_port(&self) -> Option<u8>;

    /// Whether the error reports a port disconnected that `noted` does not
    /// hold yet: the report that is to be logged.
    open spec fn first_report(&self, noted: Set<u8>) -> bool {
        self.disconnected_port() matches Some(port) && !noted.contains(port)
    }

    /// The value where there is one. On a disconnected port, `None`, with the
    /// port noted in `reported`; the number of noted ports grows exactly on a
    /// port's first report.
    fn report_if_error(self, reported: &mut DisconnectedPorts) -> (res: Option<T>)
        requires
            !self.is_incorrect_device(),
        ensures
            res == self.reported_value(),
            final(reported)@ == (match self.disconnected_port() {
                Some(port) => old(reported)@.insert(port),
                None => old(reported)@,
            }),
            old(reported)@.finite(),
            final(reported)@.finite(),
            final(reported)@.len() == (if self.first_report(old(reported)@) {
                old(reported)@.len() + 1
            } else {
                old(reported)@.len()
            }),
    ;
}

impl<T> DeviceDisconnectedErrorExt<T> for Result<T, PortError> {
    open spec fn is_incorrect_device(&self) -> bool {
        *self matches Err(PortError::IncorrectDevice { .. })
    }

    open spec fn reported_value(&self) -> Option<T> {
        match *self {
            Ok(value) => Some(value),
            Err(_) => None,
        }
    }

    open spec fn disconnected_port(&self) -> Option<u8> {
        match *self {
            Err(PortError::Disconnected { port }) => Some(port),
            _ => None,
        }
    }

    fn report_if_error(self, reported: &mut DisconnectedPorts) -> (res: Option<T>) {
        proof {
            use_type_invariant(&*reported);
        }
        match self {
            Err(err) => match err {
                PortError::Disconnected { port } => {
                    reported.record(port);
                    None
                },
                PortError::IncorrectDevice { .. } => None,
            },
            Ok(value) => Some(value),
        }
    }
}

/// The noted ports after reporting `result` against `noted`, as
/// `report_if_error` leaves them.
pub open spec fn noted_after<T>(result: Result<T, PortError>, noted: Set<u8>) -> Set<u8> {
    match result.disconnected_port() {
        Some(port) => noted.insert(port),
        None => noted,
    }
}

/// Each port is logged once: the first report of a disconnected port is the
/// one to log and adds one noted port; reporting the same error again is no
/// first report and leaves the noted ports, and their number, as they are.
pub proof fn second_report_is_silent<T>(result: Result<T, PortError>, noted: Set<u8>)
    requires
        noted.finite(),
        result.disconnected_port() is Some,
    ensures
        result.first_report(noted) ==> noted_after(result, noted).len() == noted.len() + 1,
        !result.first_report(noted_after(result, noted)),
        noted_after(result, noted_after(result, noted)) == noted_after(result, noted),
        noted_after(result, noted_after(result, noted)).len() == noted_after(result, noted).len(),
{
    let port = result.disconnected_port()->0;
    assert(noted.insert(port).insert(port) =~= noted.insert(port));
}

/// A successful result logs nothing and leaves the noted ports as they are,
/// so it changes which later reports are logged in no way.
pub proof fn success_reports_nothing<T>(value: T, noted: Set<u8>)
    ensures
        !Ok::<T, PortError>(value).first_report(noted),
        noted_after(Ok::<T, PortError>(value), noted) == noted,
{
}

/// Reporting never forgets a port, and only notes a port that was reported
/// disconnected.
pub proof fn reporting_only_adds_the_disconnected_port<T>(result: Result<T, PortError>, noted: Set<u8>, port: u8)
    ensures
        noted.contains(port) ==> (match result.disconnected_port() {
            Some(p) => noted.insert(p),
            None => noted,
        }).contains(port),
        (match result.disconnected_port() {
            Some(p) => noted.insert(p),
            None => noted,
        }).contains(port) ==> noted.contains(port) || result == Err::<T, PortError>(PortError::Disconnected { port }),
{
}

/// Every disconnect is noted: an error that port `p` is disconnected reports
/// `p`, so reporting it leaves `p` among the noted ports, is a first report
/// exactly when `p` was not noted yet, and then adds one noted port. A
/// wrong-device error or a value notes nothing.
pub proof fn every_disconnect_is_noted<T>(p: u8, noted: Set<u8>)
    requires
        noted.finite(),
    ensures
        Err::<T, PortError>(PortError::Disconnected { port: p }).disconnected_port() == Some(p),
        noted_after(Err::<T, PortError>(PortError::Disconnected { port: p }), noted).contains(p),
        noted_after(Err::<T, PortError>(PortError::Disconnected { port: p }), noted) == noted.insert(p),
        Err::<T, PortError>(PortError::Disconnected { port: p }).first_report(noted) == !noted.contains(p),
        !noted.contains(p) ==> noted_after(Err::<T, PortError>(PortError::Disconnected { port: p }), noted).len()
            == noted.len() + 1,
        Err::<T, PortError>(PortError::Disconnected { port: p }).reported_value() is None,
        forall|e: SmartDeviceType, a: SmartDeviceType|
            #[trigger] Err::<T, PortError>(PortError::IncorrectDevice { expected: e, actual: a, port: p }).disconnected_port()
                is None,
{
}

} // verus!
