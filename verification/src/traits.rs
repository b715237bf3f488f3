//! The operations that a drivetrain and an intake offer, and the eight
//! headings of a holonomic drivetrain.

use crate::actuator::BrakeMode;
use crate::kinematics::Fraction;
use vstd::prelude::*;

verus! {

/// A drivetrain whose motors are reached through handles of type `H`.
///
/// The hardware calls are handed in: `brake` and `set_voltage` are what is
/// done to one motor, and each implementation says to which motors, with
/// which values and in which order it does them.
pub trait Asterisk<H> {
    /// Brakes every motor in `mode`.
    fn brake_all<E, F: Fn(&H, BrakeMode) -> Result<(), E>>(
        &mut self,
        mode: BrakeMode,
        brake: F,
    ) -> (r: Result<(), E>)
        requires
            forall|h: H| call_requires(brake, (&h, mode)),
    ;

    /// Drives the four wheels at `fl`, `fr`, `bl` and `br` and whatever
    /// rides along at `y`; `set_voltage` takes millivolts.
    fn move_all<E, F: Fn(&H, i64) -> Result<(), E>>(
        &mut self,
        fl: Fraction,
        fr: Fraction,
        bl: Fraction,
        br: Fraction,
        y: Fraction,
        set_voltage: F,
    ) -> (r: Result<(), E>)
        requires
            forall|h: H, millivolts: i64| call_requires(set_voltage, (&h, millivolts)),
    ;
}

/// An intake whose motors are reached through handles of type `H`.
///
/// `set_velocity` is what is done to one motor, in revolutions a minute;
/// each implementation says which motor is sent which velocity.
pub trait IOFunc<H> {
    /// Takes game pieces in and stores them.
    fn intake_store<E, F: Fn(&H, i32) -> Result<(), E>>(
        &mut self,
        set_velocity: F,
    ) -> (r: Result<(), E>)
        requires
            forall|h: H, rpm: i32| call_requires(set_velocity, (&h, rpm)),
    ;

    /// Puts game pieces out at the top.
    fn outtake_top<E, F: Fn(&H, i32) -> Result<(), E>>(
        &mut self,
        set_velocity: F,
    ) -> (r: Result<(), E>)
        requires
            forall|h: H, rpm: i32| call_requires(set_velocity, (&h, rpm)),
    ;

    /// Puts game pieces out in the middle.
    fn outtake_middle<E, F: Fn(&H, i32) -> Result<(), E>>(
        &mut self,
        set_velocity: F,
    ) -> (r: Result<(), E>)
        requires
            forall|h: H, rpm: i32| call_requires(set_velocity, (&h, rpm)),
    ;

    /// Puts game pieces out at the bottom.
    fn outtake_bottom<E, F: Fn(&H, i32) -> Result<(), E>>(
        &mut self,
        set_velocity: F,
    ) -> (r: Result<(), E>)
        requires
            forall|h: H, rpm: i32| call_requires(set_velocity, (&h, rpm)),
    ;

    /// Stops the intake.
    fn stop_intake<E, F: Fn(&H, i32) -> Result<(), E>>(
        &mut self,
        set_velocity: F,
    ) -> (r: Result<(), E>)
        requires
            forall|h: H, rpm: i32| call_requires(set_velocity, (&h, rpm)),
    ;
}

/// The eight directions in which a holonomic drivetrain is said to head.
#[derive(Debug, Clone, Copy, PartialEq, Eq)]
pub enum HolonomicHeading {
    North,
    Northeast,
    East,
    Southeast,
    South,
    Southwest,
    West,
    Northwest,
}

} // verus!
