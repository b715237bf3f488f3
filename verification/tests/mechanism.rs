use kernel_rs::mechanism::{Preset, Velocities, IO};
use kernel_rs::traits::IOFunc;
use std::cell::RefCell;

type Motor = RefCell<i32>;

fn intake(front_bottom: i32, middle: i32, back_top: i32) -> IO<Motor> {
    IO::new(RefCell::new(front_bottom), RefCell::new(middle), RefCell::new(back_top))
}

fn set(motor: &Motor, rpm: i32) -> Result<(), String> {
    *motor.borrow_mut() = rpm;
    Ok(())
}

fn read(io: &mut IO<Motor>) -> Vec<i32> {
    let seen = RefCell::new(Vec::new());
    let _: Result<(), ()> = io.run(Preset::StopIntake, |m: &Motor, _rpm: i32| {
        seen.borrow_mut().push(*m.borrow());
        Ok(())
    });
    seen.into_inner()
}

#[test]
fn intake_store_sets_its_three_velocities_whatever_was_set_before() {
    for before in [(0, 0, 0), (600, -600, 600), (-1, 2, -3)] {
        let mut io = intake(before.0, before.1, before.2);
        assert_eq!(io.intake_store(set), Ok(()));
        assert_eq!(read(&mut io), vec![-600, 300, 0]);
    }
}

#[test]
fn each_preset_is_its_own_triple() {
    let triple = |p: Preset| {
        let v = p.velocities();
        (v.front_bottom, v.middle, v.back_top)
    };
    assert_eq!(triple(Preset::IntakeStore), (-600, 300, 0));
    assert_eq!(triple(Preset::OuttakeTop), (-600, 600, 600));
    assert_eq!(triple(Preset::OuttakeMiddle), (-600, 600, -600));
    assert_eq!(triple(Preset::OuttakeBottom), (600, -600, 0));
    assert_eq!(triple(Preset::StopIntake), (0, 0, 0));
    assert_eq!(
        Preset::IntakeStore.velocities(),
        Velocities { front_bottom: -600, middle: 300, back_top: 0 }
    );
}

#[test]
fn the_named_operations_command_their_presets() {
    let mut io = intake(1, 1, 1);
    assert_eq!(io.outtake_top(set), Ok(()));
    assert_eq!(read(&mut io), vec![-600, 600, 600]);
    assert_eq!(io.outtake_middle(set), Ok(()));
    assert_eq!(read(&mut io), vec![-600, 600, -600]);
    assert_eq!(io.outtake_bottom(set), Ok(()));
    assert_eq!(read(&mut io), vec![600, -600, 0]);
    assert_eq!(io.intake_store(set), Ok(()));
    assert_eq!(read(&mut io), vec![-600, 300, 0]);
    assert_eq!(io.stop_intake(set), Ok(()));
    assert_eq!(read(&mut io), vec![0, 0, 0]);
}

#[test]
fn any_preset_may_follow_any_other() {
    let all = [
        Preset::IntakeStore,
        Preset::OuttakeTop,
        Preset::OuttakeMiddle,
        Preset::OuttakeBottom,
        Preset::StopIntake,
    ];
    for first in all {
        for second in all {
            let mut io = intake(0, 0, 0);
            assert_eq!(io.run(first, set), Ok(()));
            assert_eq!(io.run(second, set), Ok(()));
            let v = second.velocities();
            assert_eq!(read(&mut io), vec![v.front_bottom, v.middle, v.back_top]);
        }
    }
}

#[test]
fn a_preset_commands_all_three_motors_and_reports_the_last_failure() {
    let mut io = IO::new("front_bottom", "middle", "back_top");
    let sent = RefCell::new(Vec::new());
    let r = io.outtake_top(|m: &&str, rpm: i32| {
        sent.borrow_mut().push((*m, rpm));
        if *m == "back_top" {
            Ok(())
        } else {
            Err(*m)
        }
    });
    assert_eq!(
        *sent.borrow(),
        vec![("front_bottom", -600), ("middle", 600), ("back_top", 600)]
    );
    assert_eq!(r, Err("middle"));
}

#[test]
fn a_failing_first_motor_does_not_keep_the_others_from_their_velocities() {
    let mut io = intake(9, 9, 9);
    let r = io.intake_store(|m: &Motor, rpm: i32| {
        if rpm == -600 {
            Err("front bottom is disconnected")
        } else {
            *m.borrow_mut() = rpm;
            Ok(())
        }
    });
    assert_eq!(r, Err("front bottom is disconnected"));
    assert_eq!(read(&mut io), vec![9, 300, 0]);
}
