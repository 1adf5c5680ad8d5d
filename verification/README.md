# teama

The decision logic of a VEX V5 competition robot, verified with Verus.

- `src/` is the library. It takes controller, sensor and clock readings as
  plain values and decides what the intake, lift, match loader and double park
  are to do. Every function there carries a contract, and the laws that the
  robot's behaviour rests on are stated and proved as proof functions.
  Times are microseconds, except the route timings, which are milliseconds;
  motor voltages are thousandths of the motor's maximum.
- `app/` is the robot program around it: device set-up, the update loops that
  read the hardware and carry out the library's decisions, the floating point
  drive curves and the scripted autonomous routes.
- `tests/` runs the library on concrete inputs.
