//! Drivetrains: the holonomic one, four wheels with a group of
//! forward-only wheels riding along, and the tank one, a group of motors
//! on each side. Both brake and move all their motors in one operation,
//! and both scale a command fraction to millivolts of the V5 maximum.

use crate::actuator::BrakeMode;
use crate::group::{
    indexed_answers, last_failure, last_failure_after, last_failure_of_two_runs, uniform_answers,
    ActuatorGroup,
};
use crate::kinematics::{
    holonomic, holonomic_mix, tank, tank_mix, Axes, ControlInput, Fraction, HolonomicRatios, Ratio,
    TankRatios,
};
use crate::traits::Asterisk;
use vstd::prelude::*;

verus! {

/// The most that a V5 motor is driven with, in millivolts.
pub const V5_MAX_MILLIVOLTS: i64 = 12_000;

/// `n / d` rounded toward zero, for a positive `d`.
pub open spec fn toward_zero(n: int, d: int) -> int {
    if n >= 0 {
        n / d
    } else {
        -((-n) / d)
    }
}

/// The voltage that a command fraction stands for: the fraction of the
/// V5 maximum, in whole millivolts, rounded toward zero.
pub open spec fn millivolts_of(command: Ratio) -> int {
    toward_zero(command.num * V5_MAX_MILLIVOLTS, command.den)
}

/// A command within `[-1, 1]` stands for a voltage within the V5 maximum;
/// zero stands for no voltage and full travel for the maximum itself.
pub proof fn voltage_within_maximum(command: Ratio)
    requires
        command.within_unit(),
    ensures
        -12_000 <= millivolts_of(command) <= 12_000,
        command.num == 0 ==> millivolts_of(command) == 0,
        command.num == command.den ==> millivolts_of(command) == 12_000,
        command.num == -command.den ==> millivolts_of(command) == -12_000,
{
    let n = command.num;
    let d = command.den;
    if n >= 0 {
        assert(0 <= (n * 12_000) / d <= 12_000) by (nonlinear_arith)
            requires
                0 <= n <= d,
                d > 0,
        ;
        assert(n == d ==> (n * 12_000) / d == 12_000) by (nonlinear_arith)
            requires
                d > 0,
        ;
    } else {
        assert(0 <= ((-n) * 12_000) / d <= 12_000) by (nonlinear_arith)
            requires
                0 <= -n <= d,
                d > 0,
        ;
        assert(-n == d ==> ((-n) * 12_000) / d == 12_000) by (nonlinear_arith)
            requires
                d > 0,
        ;
        assert(-(n * 12_000) == (-n) * 12_000) by (nonlinear_arith);
    }
}

/// The voltage that `command` stands for, in millivolts.
pub fn millivolts(command: &Fraction) -> (mv: i64)
    ensures
        mv == millivolts_of(command@),
{
    let num: i64 = command.num() as i64;
    let den: i64 = command.den() as i64;
    let scaled: i64 = num * V5_MAX_MILLIVOLTS;
    if scaled >= 0 {
        scaled / den
    } else {
        let positive: i64 = -scaled;
        assert(-(command@.num * 12_000) == positive);
        assert(0 <= positive / den <= positive) by (nonlinear_arith)
            requires
                positive >= 0,
                den > 0,
        ;
        -(positive / den)
    }
}

/// What is reported for the four wheels: the failure of the latest of
/// them that failed.
proof fn last_failure_of_four<E>(
    o0: Result<(), E>,
    o1: Result<(), E>,
    o2: Result<(), E>,
    o3: Result<(), E>,
)
    ensures
        last_failure(seq![o0, o1, o2, o3]) == if o3 is Err {
            o3
        } else if o2 is Err {
            o2
        } else if o1 is Err {
            o1
        } else if o0 is Err {
            o0
        } else {
            Ok(())
        },
{
    let none = Seq::<Result<(), E>>::empty();
    last_failure_after(none, o0);
    last_failure_after(none.push(o0), o1);
    last_failure_after(none.push(o0).push(o1), o2);
    last_failure_after(none.push(o0).push(o1).push(o2), o3);
    assert(seq![o0, o1, o2, o3] =~= none.push(o0).push(o1).push(o2).push(o3));
}

/// The mathematical value of a [`DiffHolonomic`].
pub struct Drivetrain<H> {
    pub front_left: H,
    pub front_right: H,
    pub back_left: H,
    pub back_right: H,
    pub tank_wheels: Seq<H>,
    pub brake_mode: Option<BrakeMode>,
}

impl<H> Drivetrain<H> {
    /// Every actuator in the order in which it is commanded: front left,
    /// front right, back left, back right, then the forward-only wheels.
    pub open spec fn actuators(self) -> Seq<H> {
        seq![self.front_left, self.front_right, self.back_left, self.back_right] + self.tank_wheels
    }

    /// `r` is what braking every actuator in `mode` through `brake` can
    /// report: each was told to, and `r` is the last failure among the
    /// answers.
    pub open spec fn braked<E, F: Fn(&H, BrakeMode) -> Result<(), E>>(
        self,
        mode: BrakeMode,
        brake: F,
        r: Result<(), E>,
    ) -> bool {
        exists|outcomes: Seq<Result<(), E>>| #[trigger]
            uniform_answers(brake, mode, self.actuators(), outcomes) && r == last_failure(outcomes)
    }

    /// `r` is what one move through `set_voltage` can report: each
    /// actuator was sent its voltage of [`voltages`], and `r` is the last
    /// failure among the answers.
    pub open spec fn moved<E, F: Fn(&H, i64) -> Result<(), E>>(
        self,
        command: HolonomicRatios,
        set_voltage: F,
        r: Result<(), E>,
    ) -> bool {
        exists|outcomes: Seq<Result<(), E>>| #[trigger]
            indexed_answers(
                set_voltage,
                voltages(command, self.tank_wheels.len()),
                self.actuators(),
                outcomes,
            ) && r == last_failure(outcomes)
    }
}

/// The voltages of one move, in the order of [`Drivetrain::actuators`]:
/// each wheel's own command, and for each of the `tank` forward-only
/// wheels `y` limited to `[-1, 1]`.
pub open spec fn voltages(command: HolonomicRatios, tank: nat) -> Seq<i64> {
    seq![
        millivolts_of(command.front_left) as i64,
        millivolts_of(command.front_right) as i64,
        millivolts_of(command.back_left) as i64,
        millivolts_of(command.back_right) as i64,
    ] + Seq::new(tank, |i: int| millivolts_of(command.y.limited()) as i64)
}

/// Whatever the input, no motor of a holonomic drive is sent more than
/// the V5 maximum, and zero input sends every motor zero.
pub proof fn drive_stays_within_maximum(a: Axes, tank: nat, i: int)
    requires
        a.unit > 0,
        0 <= i < 4 + tank,
    ensures
        voltages(holonomic(a), tank).len() == 4 + tank,
        -V5_MAX_MILLIVOLTS <= voltages(holonomic(a), tank)[i] <= V5_MAX_MILLIVOLTS,
        a.is_zero() ==> voltages(holonomic(a), tank)[i] == 0,
{
    let h = holonomic(a);
    voltage_within_maximum(h.front_left);
    voltage_within_maximum(h.front_right);
    voltage_within_maximum(h.back_left);
    voltage_within_maximum(h.back_right);
    voltage_within_maximum(h.y.limited());
}

/// Four holonomic wheels and a group of forward-only wheels.
pub struct DiffHolonomic<H> {
    front_left: H,
    front_right: H,
    back_left: H,
    back_right: H,
    tank_wheels: ActuatorGroup<H>,
    brake_mode: Option<BrakeMode>,
}

impl<H> View for DiffHolonomic<H> {
    type V = Drivetrain<H>;

    closed spec fn view(&self) -> Drivetrain<H> {
        Drivetrain {
            front_left: self.front_left,
            front_right: self.front_right,
            back_left: self.back_left,
            back_right: self.back_right,
            tank_wheels: self.tank_wheels@,
            brake_mode: self.brake_mode,
        }
    }
}

impl<H> DiffHolonomic<H> {
    /// The drivetrain of these handles, with no brake mode set yet.
    pub fn new(
        front_left: H,
        front_right: H,
        back_left: H,
        back_right: H,
        tank_wheels: ActuatorGroup<H>,
    ) -> (drivetrain: Self)
        ensures
            drivetrain@ == (Drivetrain {
                front_left,
                front_right,
                back_left,
                back_right,
                tank_wheels: tank_wheels@,
                brake_mode: None,
            }),
    {
        DiffHolonomic {
            front_left,
            front_right,
            back_left,
            back_right,
            tank_wheels,
            brake_mode: None,
        }
    }

    /// One cycle of driving: mixes `input` for four holonomic wheels and
    /// moves every motor accordingly, the forward-only wheels by the
    /// forward axis.
    pub fn drive<E, F: Fn(&H, i64) -> Result<(), E>>(
        &mut self,
        input: &ControlInput,
        set_voltage: F,
    ) -> (r: Result<(), E>)
        requires
            forall|h: H, millivolts: i64| call_requires(set_voltage, (&h, millivolts)),
        ensures
            final(self)@ == old(self)@,
            old(self)@.moved(holonomic(input@), set_voltage, r),
    {
        let command = holonomic_mix(input);
        self.move_all(
            command.front_left,
            command.front_right,
            command.back_left,
            command.back_right,
            command.y,
            set_voltage,
        )
    }

    /// The mode of the latest `brake_all`, if there was one.
    pub fn brake_mode(&self) -> (mode: Option<BrakeMode>)
        ensures
            mode == self@.brake_mode,
    {
        self.brake_mode
    }
}

impl<H> Asterisk<H> for DiffHolonomic<H> {
    /// Sets every motor to brake in `mode`, whatever the earlier ones
    /// answered, reports the last failure and keeps `mode` as the current
    /// brake mode.
    fn brake_all<E, F: Fn(&H, BrakeMode) -> Result<(), E>>(
        &mut self,
        mode: BrakeMode,
        brake: F,
    ) -> (r: Result<(), E>)
        ensures
            final(self)@ == (Drivetrain { brake_mode: Some(mode), ..old(self)@ }),
            old(self)@.braked(mode, brake, r),
    {
        let o0 = brake(&self.front_left, mode);
        let o1 = brake(&self.front_right, mode);
        let o2 = brake(&self.back_left, mode);
        let o3 = brake(&self.back_right, mode);
        let rest = self.tank_wheels.brake_all(mode, brake);
        self.brake_mode = Some(mode);
        proof {
            let tail = choose|tail: Seq<Result<(), E>>| #[trigger]
                uniform_answers(brake, mode, self.tank_wheels@, tail) && rest == last_failure(tail);
            let head = seq![o0, o1, o2, o3];
            last_failure_of_two_runs(head, tail);
            last_failure_of_four(o0, o1, o2, o3);
            assert(uniform_answers(brake, mode, old(self)@.actuators(), head + tail));
        }
        let wheels = if o3.is_err() {
            o3
        } else if o2.is_err() {
            o2
        } else if o1.is_err() {
            o1
        } else if o0.is_err() {
            o0
        } else {
            Ok(())
        };
        if rest.is_err() {
            rest
        } else {
            wheels
        }
    }

    /// Drives each wheel at its command and each forward-only wheel at `y`
    /// limited to `[-1, 1]`, as fractions of the V5 maximum voltage,
    /// whatever the earlier motors answered, and reports the last failure.
    fn move_all<E, F: Fn(&H, i64) -> Result<(), E>>(
        &mut self,
        fl: Fraction,
        fr: Fraction,
        bl: Fraction,
        br: Fraction,
        y: Fraction,
        set_voltage: F,
    ) -> (r: Result<(), E>)
        ensures
            final(self)@ == old(self)@,
            old(self)@.moved(
                HolonomicRatios {
                    front_left: fl@,
                    front_right: fr@,
                    back_left: bl@,
                    back_right: br@,
                    y: y@,
                },
                set_voltage,
                r,
            ),
    {
        let o0 = set_voltage(&self.front_left, millivolts(&fl));
        let o1 = set_voltage(&self.front_right, millivolts(&fr));
        let o2 = set_voltage(&self.back_left, millivolts(&bl));
        let o3 = set_voltage(&self.back_right, millivolts(&br));
        let limited = y.limited();
        let along: i64 = millivolts(&limited);
        let rest = self.tank_wheels.command_all(along, set_voltage);
        proof {
            let tail = choose|tail: Seq<Result<(), E>>| #[trigger]
                uniform_answers(set_voltage, along, self.tank_wheels@, tail) && rest
                    == last_failure(tail);
            let head = seq![o0, o1, o2, o3];
            last_failure_of_two_runs(head, tail);
            last_failure_of_four(o0, o1, o2, o3);
            let command = HolonomicRatios {
                front_left: fl@,
                front_right: fr@,
                back_left: bl@,
                back_right: br@,
                y: y@,
            };
            assert(indexed_answers(
                set_voltage,
                voltages(command, old(self)@.tank_wheels.len()),
                old(self)@.actuators(),
                head + tail,
            ));
        }
        let wheels = if o3.is_err() {
            o3
        } else if o2.is_err() {
            o2
        } else if o1.is_err() {
            o1
        } else if o0.is_err() {
            o0
        } else {
            Ok(())
        };
        if rest.is_err() {
            rest
        } else {
            wheels
        }
    }
}

/// The mathematical value of a [`TankDrive`].
pub struct Sides<H> {
    pub left: Seq<H>,
    pub right: Seq<H>,
    pub brake_mode: Option<BrakeMode>,
}

/// The voltages of one move of a tank drivetrain, in the order of
/// [`Sides::actuators`]: the left command for each of the `left` motors,
/// then the right command for each of the `right` motors.
pub open spec fn side_voltages(command: TankRatios, left: nat, right: nat) -> Seq<i64> {
    Seq::new(left, |i: int| millivolts_of(command.left) as i64) + Seq::new(
        right,
        |i: int| millivolts_of(command.right) as i64,
    )
}

impl<H> Sides<H> {
    /// Every actuator in the order in which it is commanded: the left
    /// side, then the right side.
    pub open spec fn actuators(self) -> Seq<H> {
        self.left + self.right
    }

    /// `r` is what braking every actuator in `mode` through `brake` can
    /// report.
    pub open spec fn braked<E, F: Fn(&H, BrakeMode) -> Result<(), E>>(
        self,
        mode: BrakeMode,
        brake: F,
        r: Result<(), E>,
    ) -> bool {
        exists|outcomes: Seq<Result<(), E>>| #[trigger]
            uniform_answers(brake, mode, self.actuators(), outcomes) && r == last_failure(outcomes)
    }

    /// `r` is what one move through `set_voltage` can report: each
    /// actuator was sent its voltage of [`side_voltages`], and `r` is the
    /// last failure among the answers.
    pub open spec fn moved<E, F: Fn(&H, i64) -> Result<(), E>>(
        self,
        command: TankRatios,
        set_voltage: F,
        r: Result<(), E>,
    ) -> bool {
        exists|outcomes: Seq<Result<(), E>>| #[trigger]
            indexed_answers(
                set_voltage,
                side_voltages(command, self.left.len(), self.right.len()),
                self.actuators(),
                outcomes,
            ) && r == last_failure(outcomes)
    }
}

/// A tank or differential drivetrain: the motors of the left side and
/// those of the right side.
pub struct TankDrive<H> {
    left: ActuatorGroup<H>,
    right: ActuatorGroup<H>,
    brake_mode: Option<BrakeMode>,
}

impl<H> View for TankDrive<H> {
    type V = Sides<H>;

    closed spec fn view(&self) -> Sides<H> {
        Sides { left: self.left@, right: self.right@, brake_mode: self.brake_mode }
    }
}

impl<H> TankDrive<H> {
    /// The drivetrain of these two sides, with no brake mode set yet.
    pub fn new(left: ActuatorGroup<H>, right: ActuatorGroup<H>) -> (drivetrain: Self)
        ensures
            drivetrain@ == (Sides { left: left@, right: right@, brake_mode: None }),
    {
        TankDrive { left, right, brake_mode: None }
    }

    /// The mode of the latest `brake_all`, if there was one.
    pub fn brake_mode(&self) -> (mode: Option<BrakeMode>)
        ensures
            mode == self@.brake_mode,
    {
        self.brake_mode
    }

    /// Sets every motor to brake in `mode`, whatever the earlier ones
    /// answered, reports the last failure and keeps `mode` as the current
    /// brake mode.
    pub fn brake_all<E, F: Fn(&H, BrakeMode) -> Result<(), E>>(
        &mut self,
        mode: BrakeMode,
        brake: F,
    ) -> (r: Result<(), E>)
        requires
            forall|h: H| call_requires(brake, (&h, mode)),
        ensures
            final(self)@ == (Sides { brake_mode: Some(mode), ..old(self)@ }),
            old(self)@.braked(mode, brake, r),
    {
        let first = self.left.brake_all(mode, &brake);
        let second = self.right.brake_all(mode, &brake);
        self.brake_mode = Some(mode);
        proof {
            let head = choose|head: Seq<Result<(), E>>| #[trigger]
                uniform_answers(&brake, mode, self.left@, head) && first == last_failure(head);
            let tail = choose|tail: Seq<Result<(), E>>| #[trigger]
                uniform_answers(&brake, mode, self.right@, tail) && second == last_failure(tail);
            last_failure_of_two_runs(head, tail);
            assert(uniform_answers(brake, mode, old(self)@.actuators(), head + tail));
        }
        if second.is_err() {
            second
        } else {
            first
        }
    }

    /// Drives the left side at `left` and the right side at `right`, as
    /// fractions of the V5 maximum voltage, whatever the earlier motors
    /// answered, and reports the last failure.
    pub fn move_all<E, F: Fn(&H, i64) -> Result<(), E>>(
        &mut self,
        left: Fraction,
        right: Fraction,
        set_voltage: F,
    ) -> (r: Result<(), E>)
        requires
            forall|h: H, millivolts: i64| call_requires(set_voltage, (&h, millivolts)),
        ensures
            final(self)@ == old(self)@,
            old(self)@.moved(TankRatios { left: left@, right: right@ }, set_voltage, r),
    {
        let left_voltage: i64 = millivolts(&left);
        let right_voltage: i64 = millivolts(&right);
        let first = self.left.command_all(left_voltage, &set_voltage);
        let second = self.right.command_all(right_voltage, &set_voltage);
        proof {
            let head = choose|head: Seq<Result<(), E>>| #[trigger]
                uniform_answers(&set_voltage, left_voltage, self.left@, head) && first
                    == last_failure(head);
            let tail = choose|tail: Seq<Result<(), E>>| #[trigger]
                uniform_answers(&set_voltage, right_voltage, self.right@, tail) && second
                    == last_failure(tail);
            last_failure_of_two_runs(head, tail);
            assert(indexed_answers(
                set_voltage,
                side_voltages(
                    TankRatios { left: left@, right: right@ },
                    self@.left.len(),
                    self@.right.len(),
                ),
                self@.actuators(),
                head + tail,
            ));
        }
        if second.is_err() {
            second
        } else {
            first
        }
    }

    /// One cycle of driving: mixes `input` for two sides and moves every
    /// motor accordingly.
    pub fn drive<E, F: Fn(&H, i64) -> Result<(), E>>(
        &mut self,
        input: &ControlInput,
        set_voltage: F,
    ) -> (r: Result<(), E>)
        requires
            forall|h: H, millivolts: i64| call_requires(set_voltage, (&h, millivolts)),
        ensures
            final(self)@ == old(self)@,
            old(self)@.moved(tank(input@), set_voltage, r),
    {
        let command = tank_mix(input);
        self.move_all(command.left, command.right, set_voltage)
    }
}

} // verus!
