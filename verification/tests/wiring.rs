use kernel_rs::actuator::{BrakeMode, SharedActuatorHandle};
use kernel_rs::drivetrain::{DiffHolonomic, TankDrive};
use kernel_rs::group::{report, ActuatorGroup};
use kernel_rs::kinematics::{ControlInput, Fraction};
use kernel_rs::mechanism::IO;
use kernel_rs::teleop::{cycle, ControllerSnapshot};
use kernel_rs::traits::{Asterisk, IOFunc};
use std::cell::RefCell;

#[derive(Debug, Clone, Copy, PartialEq)]
enum Target {
    Nothing,
    Millivolts(i32),
    Rpm(i32),
    Braked(BrakeMode),
}

#[derive(Debug, Clone, Copy, PartialEq, Eq)]
struct Disconnected {
    port: u8,
}

/// A motor as a driver presents it: volts as a float, cut to whole
/// millivolts on the way down, and every call fails while nothing is
/// plugged in.
struct Motor {
    port: u8,
    plugged_in: bool,
    target: Target,
}

impl Motor {
    fn new(port: u8) -> Motor {
        Motor { port, plugged_in: true, target: Target::Nothing }
    }

    fn check(&self) -> Result<(), Disconnected> {
        if self.plugged_in {
            Ok(())
        } else {
            Err(Disconnected { port: self.port })
        }
    }

    fn set_voltage(&mut self, volts: f64) -> Result<(), Disconnected> {
        self.check()?;
        self.target = Target::Millivolts((volts * 1000.0) as i32);
        Ok(())
    }

    fn set_velocity(&mut self, rpm: i32) -> Result<(), Disconnected> {
        self.check()?;
        self.target = Target::Rpm(rpm);
        Ok(())
    }

    fn brake(&mut self, mode: BrakeMode) -> Result<(), Disconnected> {
        self.check()?;
        self.target = Target::Braked(mode);
        Ok(())
    }
}

type SharedMotor = SharedActuatorHandle<RefCell<Motor>>;

fn shared(port: u8) -> SharedMotor {
    SharedActuatorHandle::new(RefCell::new(Motor::new(port)))
}

fn volts(millivolts: i64) -> f64 {
    let half = match millivolts {
        0 => 0.0,
        m if m > 0 => 0.5,
        _ => -0.5,
    };
    (millivolts as f64 + half) / 1000.0
}

fn set_voltage(motor: &SharedMotor, millivolts: i64) -> Result<(), Disconnected> {
    motor.with_exclusive_access(|m| m.borrow_mut().set_voltage(volts(millivolts)))
}

fn brake(motor: &SharedMotor, mode: BrakeMode) -> Result<(), Disconnected> {
    motor.with_exclusive_access(|m| m.borrow_mut().brake(mode))
}

fn set_velocity(motor: &RefCell<Motor>, rpm: i32) -> Result<(), Disconnected> {
    motor.borrow_mut().set_velocity(rpm)
}

fn target(motor: &SharedMotor) -> Target {
    motor.with_exclusive_access(|m| m.borrow().target)
}

fn unplug(motor: &SharedMotor) {
    motor.with_exclusive_access(|m| m.borrow_mut().plugged_in = false);
}

struct Rig {
    wheels: [SharedMotor; 4],
    tank: [SharedMotor; 2],
    dt: DiffHolonomic<SharedMotor>,
}

fn rig() -> Rig {
    let wheels = [shared(1), shared(2), shared(3), shared(4)];
    let tank = [shared(8), shared(10)];
    let dt = DiffHolonomic::new(
        wheels[0].share(),
        wheels[1].share(),
        wheels[2].share(),
        wheels[3].share(),
        ActuatorGroup::new(vec![tank[0].share(), tank[1].share()]),
    );
    Rig { wheels, tank, dt }
}

fn sticks(left_x: i8, left_y: i8, right_x: i8) -> ControllerSnapshot {
    ControllerSnapshot { left_x, left_y, right_x, button_l1: false, button_r1: false }
}

#[test]
fn every_count_of_millivolts_reaches_the_motor_as_it_is() {
    let motor = shared(1);
    for mv in -24_000i64..=24_000 {
        assert_eq!(set_voltage(&motor, mv), Ok(()));
        assert_eq!(target(&motor), Target::Millivolts(mv as i32));
    }
}

#[test]
fn a_driver_cycle_reaches_the_motors_that_the_odometry_holds_too() {
    let mut rig = rig();
    assert_eq!(cycle(&mut rig.dt, &sticks(127, 127, 127), brake, set_voltage), Ok(()));
    assert_eq!(target(&rig.wheels[0]), Target::Millivolts(12_000));
    assert_eq!(target(&rig.wheels[1]), Target::Millivolts(-4_000));
    assert_eq!(target(&rig.wheels[2]), Target::Millivolts(4_000));
    assert_eq!(target(&rig.wheels[3]), Target::Millivolts(4_000));
    assert_eq!(target(&rig.tank[0]), Target::Millivolts(12_000));
    assert_eq!(target(&rig.tank[1]), Target::Millivolts(12_000));
}

#[test]
fn a_stick_inside_the_deadzone_moves_nothing() {
    let mut rig = rig();
    assert_eq!(cycle(&mut rig.dt, &sticks(6, -6, 5), brake, set_voltage), Ok(()));
    for m in rig.wheels.iter().chain(rig.tank.iter()) {
        assert_eq!(target(m), Target::Millivolts(0));
    }
}

#[test]
fn one_unplugged_wheel_leaves_the_other_three_commanded() {
    for failing in 0..4 {
        let mut rig = rig();
        unplug(&rig.wheels[failing]);
        let r = rig.dt.move_all(
            Fraction::new(1, 1).unwrap(),
            Fraction::new(1, 1).unwrap(),
            Fraction::new(1, 1).unwrap(),
            Fraction::new(1, 1).unwrap(),
            Fraction::new(0, 1).unwrap(),
            set_voltage,
        );
        let ports = [1u8, 2, 3, 4];
        assert_eq!(r, Err(Disconnected { port: ports[failing] }));
        for (i, m) in rig.wheels.iter().enumerate() {
            let expected = if i == failing { Target::Nothing } else { Target::Millivolts(12_000) };
            assert_eq!(target(m), expected);
        }
        assert_eq!(target(&rig.tank[0]), Target::Millivolts(0));
        assert_eq!(target(&rig.tank[1]), Target::Millivolts(0));
    }
}

#[test]
fn braking_holds_every_motor_and_the_next_cycle_moves_again() {
    let mut rig = rig();
    let mut held = sticks(0, 127, 0);
    held.button_r1 = true;
    unplug(&rig.tank[1]);
    assert_eq!(cycle(&mut rig.dt, &held, brake, set_voltage), Err(Disconnected { port: 10 }));
    for m in rig.wheels.iter() {
        assert_eq!(target(m), Target::Braked(BrakeMode::Hold));
    }
    assert_eq!(target(&rig.tank[0]), Target::Braked(BrakeMode::Hold));
    assert_eq!(target(&rig.tank[1]), Target::Nothing);
    assert_eq!(rig.dt.brake_mode(), Some(BrakeMode::Hold));

    assert_eq!(
        cycle(&mut rig.dt, &sticks(0, 64, 0), brake, set_voltage),
        Err(Disconnected { port: 10 })
    );
    assert_eq!(target(&rig.wheels[0]), Target::Millivolts(6_047));
    assert_eq!(target(&rig.tank[0]), Target::Millivolts(6_047));
}

#[test]
fn a_tank_drivetrain_drives_each_side_as_one() {
    let left = [shared(11), shared(12)];
    let right = [shared(13), shared(14), shared(15)];
    let mut dt = TankDrive::new(
        ActuatorGroup::new(left.iter().map(|m| m.share()).collect()),
        ActuatorGroup::new(right.iter().map(|m| m.share()).collect()),
    );
    let input = ControlInput::new(3, 0, -2, 10).unwrap();
    assert_eq!(dt.drive(&input, set_voltage), Ok(()));
    for m in left.iter() {
        assert_eq!(target(m), Target::Millivolts(1_200));
    }
    for m in right.iter() {
        assert_eq!(target(m), Target::Millivolts(6_000));
    }

    unplug(&left[1]);
    unplug(&right[0]);
    assert_eq!(dt.brake_all(BrakeMode::Brake, brake), Err(Disconnected { port: 13 }));
    assert_eq!(dt.brake_mode(), Some(BrakeMode::Brake));
    assert_eq!(target(&left[0]), Target::Braked(BrakeMode::Brake));
    assert_eq!(target(&right[2]), Target::Braked(BrakeMode::Brake));

    let zero = ControlInput::new(0, 9, 0, 10).unwrap();
    assert_eq!(dt.drive(&zero, set_voltage), Err(Disconnected { port: 13 }));
    assert_eq!(target(&left[0]), Target::Millivolts(0));
    assert_eq!(target(&right[1]), Target::Millivolts(0));
    assert_eq!(dt.brake_mode(), Some(BrakeMode::Brake));
}

#[test]
fn a_tank_drivetrain_does_not_cut_what_is_over_full_travel() {
    let side = shared(1);
    let other = shared(2);
    let mut dt = TankDrive::new(
        ActuatorGroup::new(vec![side.share()]),
        ActuatorGroup::new(vec![other.share()]),
    );
    let input = ControlInput::new(10, 0, 10, 10).unwrap();
    assert_eq!(dt.drive(&input, set_voltage), Ok(()));
    assert_eq!(target(&side), Target::Millivolts(24_000));
    assert_eq!(target(&other), Target::Millivolts(0));
}

#[test]
fn the_intake_sets_velocities_on_its_own_motors() {
    let mut io = IO::new(
        RefCell::new(Motor::new(7)),
        RefCell::new(Motor::new(5)),
        RefCell::new(Motor::new(6)),
    );
    assert_eq!(io.intake_store(set_velocity), Ok(()));
    let seen = RefCell::new(Vec::new());
    let _: Result<(), ()> = io.stop_intake(|m: &RefCell<Motor>, _rpm: i32| {
        seen.borrow_mut().push(m.borrow().target);
        Ok(())
    });
    assert_eq!(*seen.borrow(), vec![Target::Rpm(-600), Target::Rpm(300), Target::Rpm(0)]);
}

#[test]
fn report_keeps_the_last_failure() {
    assert_eq!(report::<u8>(vec![]), Ok(()));
    assert_eq!(report::<u8>(vec![Ok(()), Ok(())]), Ok(()));
    assert_eq!(report(vec![Err(1), Ok(()), Ok(())]), Err(1));
    assert_eq!(report(vec![Err(1), Ok(()), Err(2)]), Err(2));
    assert_eq!(report(vec![Ok(()), Err(3), Ok(()), Err(4), Ok(())]), Err(4));
}

#[test]
fn attempt_all_returns_every_answer_in_order() {
    let group = ActuatorGroup::new(vec![1u8, 2, 3, 4]);
    let outcomes = group.attempt_all(|m: &u8| if *m % 2 == 0 { Err(*m) } else { Ok(()) });
    assert_eq!(outcomes, vec![Ok(()), Err(2), Ok(()), Err(4)]);
    assert_eq!(outcomes.len(), group.len());
    assert_eq!(report(outcomes), Err(4));
}
