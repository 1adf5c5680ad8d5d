//! Decision logic of a competition robot: intake and lift control, driver
//! control, device error reporting and the autonomous route catalogue.
//!
//! The library holds no hardware: it takes controller, sensor and clock
//! readings as plain values and says what the motors and pneumatics are to do.
pub mod intake;
pub mod lift;
pub mod opcontrol;
pub mod ports;
pub mod routes;
pub mod selector;

pub use routes::testing_route_index;
