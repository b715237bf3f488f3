//! One cycle of driver control: from a snapshot of the controller to what
//! the drivetrain is told. Reading the controller and waiting for the next
//! cycle are the caller's part.

use crate::actuator::BrakeMode;
use crate::drivetrain::{DiffHolonomic, Drivetrain};
use crate::kinematics::{
    deadzoned, holonomic, holonomic_mix, magnitude, Axes, ControlInput, HolonomicCommand,
};
use crate::traits::Asterisk;
use vstd::prelude::*;

verus! {

/// The count at which a stick is at full travel.
pub const STICK_UNIT: i16 = 127;

/// The deadzone of a stick, in counts: the first count that is at least a
/// twentieth of full travel.
pub const STICK_DEADZONE: i16 = 7;

/// Under [`STICK_DEADZONE`] are exactly the counts under a twentieth of
/// full travel.
pub proof fn stick_deadzone_is_a_twentieth(count: int)
    ensures
        magnitude(count) < STICK_DEADZONE <==> 20 * magnitude(count) < STICK_UNIT,
{
}

/// What the controller shows in one cycle: the three axes that steer, in
/// counts of [`STICK_UNIT`], and the two brake buttons.
#[derive(Clone, Copy, Debug, PartialEq, Eq, Default)]
pub struct ControllerSnapshot {
    /// Left stick, sideways: strafe.
    pub left_x: i8,
    /// Left stick, up and down: forward.
    pub left_y: i8,
    /// Right stick, sideways: turn.
    pub right_x: i8,
    /// Held to brake.
    pub button_l1: bool,
    /// Held to hold position.
    pub button_r1: bool,
}

/// The input that the sticks of `snapshot` stand for, each axis after the
/// deadzone.
pub open spec fn stick_axes(snapshot: ControllerSnapshot) -> Axes {
    Axes {
        forward: deadzoned(snapshot.left_y as int, STICK_DEADZONE as int),
        strafe: deadzoned(snapshot.left_x as int, STICK_DEADZONE as int),
        turn: deadzoned(snapshot.right_x as int, STICK_DEADZONE as int),
        unit: STICK_UNIT as int,
    }
}

/// The input that the sticks of `snapshot` stand for.
pub fn stick_input(snapshot: &ControllerSnapshot) -> (input: ControlInput)
    ensures
        input@ == stick_axes(*snapshot),
{
    let raw = ControlInput::new(
        snapshot.left_y as i16,
        snapshot.left_x as i16,
        snapshot.right_x as i16,
        STICK_UNIT,
    );
    raw.unwrap().with_deadzone(STICK_DEADZONE)
}

/// What the drivetrain is told in one cycle.
#[derive(Clone, Copy, Debug, PartialEq, Eq)]
pub enum CycleAction {
    /// Brake every motor in this mode; nothing is mixed.
    Brake(BrakeMode),
    /// Move by this command.
    Drive(HolonomicCommand),
}

/// What `snapshot` asks for: with L1 held, braking; with R1 held and L1
/// not, holding; with neither, the holonomic mix of the sticks.
pub fn decide(snapshot: &ControllerSnapshot) -> (action: CycleAction)
    ensures
        snapshot.button_l1 ==> action == CycleAction::Brake(BrakeMode::Brake),
        !snapshot.button_l1 && snapshot.button_r1 ==> action == CycleAction::Brake(BrakeMode::Hold),
        !snapshot.button_l1 && !snapshot.button_r1 ==> action is Drive && action->Drive_0@
            == holonomic(stick_axes(*snapshot)),
{
    if snapshot.button_l1 {
        CycleAction::Brake(BrakeMode::Brake)
    } else if snapshot.button_r1 {
        CycleAction::Brake(BrakeMode::Hold)
    } else {
        let input = stick_input(snapshot);
        CycleAction::Drive(holonomic_mix(&input))
    }
}

/// One cycle of driver control on `drivetrain`: what [`decide`] asks for
/// is done, and what the motors answered is reported.
pub fn cycle<H, E, B: Fn(&H, BrakeMode) -> Result<(), E>, V: Fn(&H, i64) -> Result<(), E>>(
    drivetrain: &mut DiffHolonomic<H>,
    snapshot: &ControllerSnapshot,
    brake: B,
    set_voltage: V,
) -> (r: Result<(), E>)
    requires
        forall|h: H, mode: BrakeMode| call_requires(brake, (&h, mode)),
        forall|h: H, millivolts: i64| call_requires(set_voltage, (&h, millivolts)),
    ensures
        snapshot.button_l1 ==> final(drivetrain)@ == (Drivetrain {
            brake_mode: Some(BrakeMode::Brake),
            ..old(drivetrain)@
        }) && old(drivetrain)@.braked(BrakeMode::Brake, brake, r),
        !snapshot.button_l1 && snapshot.button_r1 ==> final(drivetrain)@ == (Drivetrain {
            brake_mode: Some(BrakeMode::Hold),
            ..old(drivetrain)@
        }) && old(drivetrain)@.braked(BrakeMode::Hold, brake, r),
        !snapshot.button_l1 && !snapshot.button_r1 ==> final(drivetrain)@ == old(drivetrain)@
            && old(drivetrain)@.moved(holonomic(stick_axes(*snapshot)), set_voltage, r),
{
    match decide(snapshot) {
        CycleAction::Brake(mode) => drivetrain.brake_all(mode, brake),
        CycleAction::Drive(command) => drivetrain.move_all(
            command.front_left,
            command.front_right,
            command.back_left,
            command.back_right,
            command.y,
            set_voltage,
        ),
    }
}

} // verus!
