//! Actuation core of a mobile robot controller.
//!
//! The crate turns what a driver does with the sticks into what each motor
//! is told, and tells groups of motors as one: every motor of a group is
//! commanded whatever the earlier ones answered, and the caller hears of
//! the last failure.
//!
//! Nothing here rounds until the last step. An axis is a count of the
//! stick's full travel, a wheel command is an exact fraction, and a
//! voltage is a whole number of millivolts, which is what a motor takes.
//!
//! The hardware itself is not in this crate. Each operation that reaches a
//! motor takes the call to make as a function (`brake`, `set_voltage`,
//! `set_velocity`) and says, for whatever that function may answer, which
//! motors it is called on, with which values, and what is reported.
//!
//! - [`kinematics`]: stick input, deadzone, tank and holonomic mixing.
//! - [`actuator`]: brake modes, and handles that share one actuator.
//! - [`group`]: groups of actuators and the last-failure rule.
//! - [`drivetrain`]: the holonomic and the tank drivetrain.
//! - [`mechanism`]: the intake and its presets.
//! - [`teleop`]: one cycle of driver control.
//! - [`traits`]: what a drivetrain and an intake offer.

pub mod actuator;
pub mod drivetrain;
pub mod group;
pub mod kinematics;
pub mod mechanism;
pub mod teleop;
pub mod traits;
