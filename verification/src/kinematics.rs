//! Drive kinematics: from stick input to one command fraction per wheel.
//!
//! Every quantity is an exact ratio of integers. An axis is a count of
//! `unit` (the count that stands for full travel), a wheel command is a
//! numerator over a denominator, and normalization changes the denominator
//! only, so no rounding takes place in this module.

use vstd::prelude::*;

verus! {

/// The absolute value of `v`.
pub open spec fn magnitude(v: int) -> int {
    if v < 0 {
        -v
    } else {
        v
    }
}

/// The larger of `a` and `b`.
pub open spec fn larger(a: int, b: int) -> int {
    if a >= b {
        a
    } else {
        b
    }
}

/// The mathematical value of a [`Fraction`]: `num / den`.
pub struct Ratio {
    pub num: int,
    pub den: int,
}

impl Ratio {
    /// The ratio lies in `[-1, 1]`.
    pub open spec fn within_unit(self) -> bool {
        self.den > 0 && magnitude(self.num) <= self.den
    }

    /// The ratio is zero.
    pub open spec fn is_zero(self) -> bool {
        self.den > 0 && self.num == 0
    }

    /// The ratio limited to `[-1, 1]`.
    pub open spec fn limited(self) -> Ratio {
        Ratio {
            num: if self.num > self.den {
                self.den
            } else if self.num < -self.den {
                -self.den
            } else {
                self.num
            },
            den: self.den,
        }
    }

    /// `self / other == pre_self / pre_other`, written without division.
    /// All four denominators are positive and both divisors are nonzero.
    pub open spec fn same_quotient(self, other: Ratio, pre_self: Ratio, pre_other: Ratio) -> bool {
        (self.num * other.den) * (pre_other.num * pre_self.den) == (pre_self.num * pre_other.den)
            * (other.num * self.den)
    }
}

/// The mathematical value of a [`ControlInput`].
pub struct Axes {
    pub forward: int,
    pub strafe: int,
    pub turn: int,
    pub unit: int,
}

impl Axes {
    /// The raw front left term.
    pub open spec fn raw_front_left(self) -> int {
        self.forward + self.strafe + self.turn
    }

    /// The raw front right term.
    pub open spec fn raw_front_right(self) -> int {
        self.forward - self.strafe - self.turn
    }

    /// The raw back left term.
    pub open spec fn raw_back_left(self) -> int {
        self.forward - self.strafe + self.turn
    }

    /// The raw back right term.
    pub open spec fn raw_back_right(self) -> int {
        self.forward + self.strafe - self.turn
    }

    /// The largest magnitude among the four raw wheel terms.
    pub open spec fn peak(self) -> int {
        larger(
            larger(magnitude(self.raw_front_left()), magnitude(self.raw_front_right())),
            larger(magnitude(self.raw_back_left()), magnitude(self.raw_back_right())),
        )
    }

    /// What the four raw terms are divided by: `unit` while the peak is at
    /// most full travel, the peak itself once it is more.
    pub open spec fn divisor(self) -> int {
        if self.peak() > self.unit {
            self.peak()
        } else {
            self.unit
        }
    }

    /// Every axis is zero.
    pub open spec fn is_zero(self) -> bool {
        self.forward == 0 && self.strafe == 0 && self.turn == 0
    }

    /// Every axis lies in `[-1, 1]`.
    pub open spec fn bounded(self) -> bool {
        &&& magnitude(self.forward) <= self.unit
        &&& magnitude(self.strafe) <= self.unit
        &&& magnitude(self.turn) <= self.unit
    }
}

/// What one axis becomes under a deadzone of `threshold`.
pub open spec fn deadzoned(value: int, threshold: int) -> int {
    if magnitude(value) < threshold {
        0
    } else {
        value
    }
}

/// The mathematical value of a [`TankCommand`].
pub struct TankRatios {
    pub left: Ratio,
    pub right: Ratio,
}

/// The mathematical value of a [`HolonomicCommand`].
pub struct HolonomicRatios {
    pub front_left: Ratio,
    pub front_right: Ratio,
    pub back_left: Ratio,
    pub back_right: Ratio,
    pub y: Ratio,
}

/// Tank mixing: `left = forward + turn`, `right = forward - turn`, both
/// over `unit`. The strafe axis plays no part.
pub open spec fn tank(a: Axes) -> TankRatios {
    TankRatios {
        left: Ratio { num: a.forward + a.turn, den: a.unit },
        right: Ratio { num: a.forward - a.turn, den: a.unit },
    }
}

/// Holonomic mixing with normalization: the four raw terms over the common
/// divisor, and `y`, the forward axis as it came in.
pub open spec fn holonomic(a: Axes) -> HolonomicRatios {
    HolonomicRatios {
        front_left: Ratio { num: a.raw_front_left(), den: a.divisor() },
        front_right: Ratio { num: a.raw_front_right(), den: a.divisor() },
        back_left: Ratio { num: a.raw_back_left(), den: a.divisor() },
        back_right: Ratio { num: a.raw_back_right(), den: a.divisor() },
        y: Ratio { num: a.forward, den: a.unit },
    }
}

/// The four raw terms before normalization, each over `unit`.
pub open spec fn holonomic_raw(a: Axes) -> HolonomicRatios {
    HolonomicRatios {
        front_left: Ratio { num: a.raw_front_left(), den: a.unit },
        front_right: Ratio { num: a.raw_front_right(), den: a.unit },
        back_left: Ratio { num: a.raw_back_left(), den: a.unit },
        back_right: Ratio { num: a.raw_back_right(), den: a.unit },
        y: Ratio { num: a.forward, den: a.unit },
    }
}

impl HolonomicRatios {
    /// The wheel at position `i`, in the order front left, front right,
    /// back left, back right.
    pub open spec fn wheel(self, i: int) -> Ratio {
        if i == 0 {
            self.front_left
        } else if i == 1 {
            self.front_right
        } else if i == 2 {
            self.back_left
        } else {
            self.back_right
        }
    }
}

/// A command fraction `num / den` with a positive denominator.
#[derive(Clone, Copy, Debug, PartialEq, Eq)]
pub struct Fraction {
    num: i32,
    den: i32,
}

impl View for Fraction {
    type V = Ratio;

    closed spec fn view(&self) -> Ratio {
        Ratio { num: self.num as int, den: self.den as int }
    }
}

impl Fraction {
    #[verifier::type_invariant]
    spec fn positive_denominator(self) -> bool {
        self.den > 0
    }

    /// `num / den`, for a positive `den`; nothing for any other.
    pub fn new(num: i32, den: i32) -> (r: Option<Fraction>)
        ensures
            den > 0 ==> r is Some && r->0@ == (Ratio { num: num as int, den: den as int }),
            den <= 0 ==> r is None,
    {
        if den > 0 {
            Some(Fraction { num, den })
        } else {
            None
        }
    }

    /// The numerator.
    pub fn num(&self) -> (n: i32)
        ensures
            n == self@.num,
    {
        self.num
    }

    /// The denominator, which is positive.
    pub fn den(&self) -> (d: i32)
        ensures
            d == self@.den,
            d > 0,
    {
        proof {
            use_type_invariant(self);
        }
        self.den
    }

    /// This fraction limited to `[-1, 1]`.
    pub fn limited(&self) -> (r: Fraction)
        ensures
            r@ == self@.limited(),
            r@.within_unit(),
    {
        proof {
            use_type_invariant(self);
        }
        let num: i32 = if self.num > self.den {
            self.den
        } else if self.num < -self.den {
            -self.den
        } else {
            self.num
        };
        Fraction { num, den: self.den }
    }
}

/// One cycle's stick input: three axes counted in `unit`, the positive
/// count that stands for full travel.
#[derive(Clone, Copy, Debug, PartialEq, Eq)]
pub struct ControlInput {
    forward: i16,
    strafe: i16,
    turn: i16,
    unit: i16,
}

impl View for ControlInput {
    type V = Axes;

    closed spec fn view(&self) -> Axes {
        Axes {
            forward: self.forward as int,
            strafe: self.strafe as int,
            turn: self.turn as int,
            unit: self.unit as int,
        }
    }
}

/// The axis after a deadzone: exactly zero while its magnitude is under
/// `threshold`, unchanged from there on.
pub fn deadzone(value: i16, threshold: i16) -> (r: i16)
    ensures
        r == deadzoned(value as int, threshold as int),
        magnitude(value as int) < threshold ==> r == 0,
        magnitude(value as int) >= threshold ==> r == value,
{
    let wide: i32 = value as i32;
    let size: i32 = if wide < 0 {
        -wide
    } else {
        wide
    };
    if size < threshold as i32 {
        0
    } else {
        value
    }
}

impl ControlInput {
    #[verifier::type_invariant]
    spec fn positive_unit(self) -> bool {
        self.unit > 0
    }

    /// The input with the given axes, for a positive `unit`; nothing for
    /// any other.
    pub fn new(forward: i16, strafe: i16, turn: i16, unit: i16) -> (r: Option<ControlInput>)
        ensures
            unit > 0 ==> r is Some && r->0@ == (Axes {
                forward: forward as int,
                strafe: strafe as int,
                turn: turn as int,
                unit: unit as int,
            }),
            unit <= 0 ==> r is None,
    {
        if unit > 0 {
            Some(ControlInput { forward, strafe, turn, unit })
        } else {
            None
        }
    }

    /// The forward axis.
    pub fn forward(&self) -> (v: i16)
        ensures
            v == self@.forward,
    {
        self.forward
    }

    /// The strafe axis.
    pub fn strafe(&self) -> (v: i16)
        ensures
            v == self@.strafe,
    {
        self.strafe
    }

    /// The turn axis.
    pub fn turn(&self) -> (v: i16)
        ensures
            v == self@.turn,
    {
        self.turn
    }

    /// The count that stands for full travel, which is positive.
    pub fn unit(&self) -> (v: i16)
        ensures
            v == self@.unit,
            v > 0,
    {
        proof {
            use_type_invariant(self);
        }
        self.unit
    }

    /// This input with the deadzone applied to each axis.
    pub fn with_deadzone(&self, threshold: i16) -> (r: ControlInput)
        ensures
            r@ == (Axes {
                forward: deadzoned(self@.forward, threshold as int),
                strafe: deadzoned(self@.strafe, threshold as int),
                turn: deadzoned(self@.turn, threshold as int),
                unit: self@.unit,
            }),
    {
        proof {
            use_type_invariant(self);
        }
        ControlInput {
            forward: deadzone(self.forward, threshold),
            strafe: deadzone(self.strafe, threshold),
            turn: deadzone(self.turn, threshold),
            unit: self.unit,
        }
    }
}

/// The two commands of a tank or differential drivetrain.
#[derive(Clone, Copy, Debug, PartialEq, Eq)]
pub struct TankCommand {
    pub left: Fraction,
    pub right: Fraction,
}

impl View for TankCommand {
    type V = TankRatios;

    open spec fn view(&self) -> TankRatios {
        TankRatios { left: self.left@, right: self.right@ }
    }
}

/// The four wheel commands of a holonomic drivetrain, and `y` for a set of
/// forward-only wheels that rides along.
#[derive(Clone, Copy, Debug, PartialEq, Eq)]
pub struct HolonomicCommand {
    pub front_left: Fraction,
    pub front_right: Fraction,
    pub back_left: Fraction,
    pub back_right: Fraction,
    pub y: Fraction,
}

impl View for HolonomicCommand {
    type V = HolonomicRatios;

    open spec fn view(&self) -> HolonomicRatios {
        HolonomicRatios {
            front_left: self.front_left@,
            front_right: self.front_right@,
            back_left: self.back_left@,
            back_right: self.back_right@,
            y: self.y@,
        }
    }
}

/// Tank mixing of `input`.
pub fn tank_mix(input: &ControlInput) -> (command: TankCommand)
    ensures
        command@ == tank(input@),
{
    proof {
        use_type_invariant(input);
    }
    let forward: i32 = input.forward as i32;
    let turn: i32 = input.turn as i32;
    let unit: i32 = input.unit as i32;
    TankCommand {
        left: Fraction { num: forward + turn, den: unit },
        right: Fraction { num: forward - turn, den: unit },
    }
}

fn size_of(v: i32) -> (r: i32)
    requires
        -100000 <= v <= 100000,
    ensures
        r == magnitude(v as int),
{
    if v < 0 {
        -v
    } else {
        v
    }
}

fn larger_of(a: i32, b: i32) -> (r: i32)
    ensures
        r == larger(a as int, b as int),
{
    if a >= b {
        a
    } else {
        b
    }
}

/// Holonomic mixing of `input`, normalized: once the largest raw term is
/// more than full travel, all four are divided by it, which keeps their
/// ratios; up to and at full travel nothing is scaled.
pub fn holonomic_mix(input: &ControlInput) -> (command: HolonomicCommand)
    ensures
        command@ == holonomic(input@),
        command@.front_left.within_unit(),
        command@.front_right.within_unit(),
        command@.back_left.within_unit(),
        command@.back_right.within_unit(),
{
    proof {
        use_type_invariant(input);
    }
    let forward: i32 = input.forward as i32;
    let strafe: i32 = input.strafe as i32;
    let turn: i32 = input.turn as i32;
    let unit: i32 = input.unit as i32;
    let front_left: i32 = forward + strafe + turn;
    let front_right: i32 = forward - strafe - turn;
    let back_left: i32 = forward - strafe + turn;
    let back_right: i32 = forward + strafe - turn;
    let peak: i32 = larger_of(
        larger_of(size_of(front_left), size_of(front_right)),
        larger_of(size_of(back_left), size_of(back_right)),
    );
    let divisor: i32 = if peak > unit {
        peak
    } else {
        unit
    };
    HolonomicCommand {
        front_left: Fraction { num: front_left, den: divisor },
        front_right: Fraction { num: front_right, den: divisor },
        back_left: Fraction { num: back_left, den: divisor },
        back_right: Fraction { num: back_right, den: divisor },
        y: Fraction { num: forward, den: unit },
    }
}

/// The topologies for which a command is mixed.
#[derive(Clone, Copy, Debug, PartialEq, Eq, Structural)]
pub enum DriveKinematics {
    /// Two sides, each driven by forward and turn.
    Tank,
    /// The same mixing as `Tank`, for a drivetrain of two groups.
    Differential,
    /// Four wheels that drive forward, sideways and in turns.
    Holonomic,
}

/// One cycle's command, in the shape of the topology that mixed it.
#[derive(Clone, Copy, Debug, PartialEq, Eq)]
pub enum DriveCommand {
    Tank(TankCommand),
    Holonomic(HolonomicCommand),
}

impl DriveKinematics {
    /// The command that this topology mixes from `input`.
    pub fn mix(&self, input: &ControlInput) -> (command: DriveCommand)
        ensures
            *self != DriveKinematics::Holonomic ==> command is Tank && command->Tank_0@ == tank(
                input@,
            ),
            *self == DriveKinematics::Holonomic ==> command is Holonomic && command->Holonomic_0@
                == holonomic(input@),
    {
        match self {
            DriveKinematics::Tank => DriveCommand::Tank(tank_mix(input)),
            DriveKinematics::Differential => DriveCommand::Tank(tank_mix(input)),
            DriveKinematics::Holonomic => DriveCommand::Holonomic(holonomic_mix(input)),
        }
    }
}

/// After normalization every holonomic wheel command lies in `[-1, 1]`,
/// whatever the input.
pub proof fn holonomic_wheels_within_unit(a: Axes, i: int)
    requires
        a.unit > 0,
        0 <= i < 4,
    ensures
        holonomic(a).wheel(i).within_unit(),
{
}

/// Normalization keeps the ratio between any two wheels: the quotient of
/// wheel `i` by wheel `j` is the same after it as before, wherever wheel
/// `j` is not zero.
pub proof fn normalization_keeps_ratios(a: Axes, i: int, j: int)
    requires
        a.unit > 0,
        0 <= i < 4,
        0 <= j < 4,
        holonomic_raw(a).wheel(j).num != 0,
    ensures
        holonomic(a).wheel(j).num != 0,
        holonomic(a).wheel(i).same_quotient(
            holonomic(a).wheel(j),
            holonomic_raw(a).wheel(i),
            holonomic_raw(a).wheel(j),
        ),
{
    let n = holonomic(a).wheel(i).num;
    let m = holonomic(a).wheel(j).num;
    let d = a.divisor();
    let u = a.unit;
    assert((n * d) * (m * u) == (n * u) * (m * d)) by (nonlinear_arith);
}

/// While no raw term is more than full travel, normalization changes
/// nothing: full travel itself is not scaled.
pub proof fn no_scaling_up_to_full_travel(a: Axes)
    requires
        a.unit > 0,
        a.peak() <= a.unit,
    ensures
        holonomic(a) == holonomic_raw(a),
{
}

/// Zero input gives a zero command on every wheel, under tank mixing and
/// under holonomic mixing.
pub proof fn zero_input_gives_zero_command(a: Axes)
    requires
        a.unit > 0,
        a.is_zero(),
    ensures
        tank(a).left.is_zero(),
        tank(a).right.is_zero(),
        holonomic(a).front_left.is_zero(),
        holonomic(a).front_right.is_zero(),
        holonomic(a).back_left.is_zero(),
        holonomic(a).back_right.is_zero(),
        holonomic(a).y.is_zero(),
        holonomic(a) == holonomic_raw(a),
{
}

/// For an input whose axes lie in `[-1, 1]`, `y` lies there as well, so
/// limiting it changes nothing.
pub proof fn bounded_input_needs_no_limit(a: Axes)
    requires
        a.unit > 0,
        a.bounded(),
    ensures
        holonomic(a).y.within_unit(),
        holonomic(a).y.limited() == holonomic(a).y,
{
}

} // verus!
