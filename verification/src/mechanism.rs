//! The intake: three motors and five presets, each preset one velocity
//! per motor. A preset is an absolute command; what was commanded before
//! plays no part.

use crate::group::{indexed_answers, last_failure, last_failure_after};
use crate::traits::IOFunc;
use vstd::prelude::*;

verus! {

/// Full speed forward, in revolutions a minute.
pub const FULL_FORWARD: i32 = 600;

/// Full speed in reverse.
pub const FULL_REVERSE: i32 = -600;

/// The speed at which the middle motor stores.
pub const STORE: i32 = 300;

/// The velocities of one preset, in revolutions a minute.
#[derive(Clone, Copy, Debug, PartialEq, Eq, Structural)]
pub struct Velocities {
    pub front_bottom: i32,
    pub middle: i32,
    pub back_top: i32,
}

impl Velocities {
    /// The three velocities in the order in which they are sent: front
    /// bottom, middle, back top.
    pub open spec fn in_order(self) -> Seq<i32> {
        seq![self.front_bottom, self.middle, self.back_top]
    }
}

/// The five things the intake can be told to do.
#[derive(Clone, Copy, Debug, PartialEq, Eq, Structural)]
pub enum Preset {
    IntakeStore,
    OuttakeTop,
    OuttakeMiddle,
    OuttakeBottom,
    StopIntake,
}

impl Preset {
    /// The velocities that the preset stands for.
    pub open spec fn rpm(self) -> Velocities {
        match self {
            Preset::IntakeStore => Velocities {
                front_bottom: FULL_REVERSE,
                middle: STORE,
                back_top: 0,
            },
            Preset::OuttakeTop => Velocities {
                front_bottom: FULL_REVERSE,
                middle: FULL_FORWARD,
                back_top: FULL_FORWARD,
            },
            Preset::OuttakeMiddle => Velocities {
                front_bottom: FULL_REVERSE,
                middle: FULL_FORWARD,
                back_top: FULL_REVERSE,
            },
            Preset::OuttakeBottom => Velocities {
                front_bottom: FULL_FORWARD,
                middle: FULL_REVERSE,
                back_top: 0,
            },
            Preset::StopIntake => Velocities {
                front_bottom: 0,
                middle: 0,
                back_top: 0,
            },
        }
    }

    /// The velocities that the preset stands for.
    pub fn velocities(self) -> (v: Velocities)
        ensures
            v == self.rpm(),
    {
        match self {
            Preset::IntakeStore => Velocities {
                front_bottom: FULL_REVERSE,
                middle: STORE,
                back_top: 0,
            },
            Preset::OuttakeTop => Velocities {
                front_bottom: FULL_REVERSE,
                middle: FULL_FORWARD,
                back_top: FULL_FORWARD,
            },
            Preset::OuttakeMiddle => Velocities {
                front_bottom: FULL_REVERSE,
                middle: FULL_FORWARD,
                back_top: FULL_REVERSE,
            },
            Preset::OuttakeBottom => Velocities {
                front_bottom: FULL_FORWARD,
                middle: FULL_REVERSE,
                back_top: 0,
            },
            Preset::StopIntake => Velocities {
                front_bottom: 0,
                middle: 0,
                back_top: 0,
            },
        }
    }
}

/// The mathematical value of an [`IO`].
pub struct Intake<H> {
    pub front_bottom: H,
    pub middle: H,
    pub back_top: H,
}

impl<H> Intake<H> {
    /// The three motors in the order in which they are commanded.
    pub open spec fn actuators(self) -> Seq<H> {
        seq![self.front_bottom, self.middle, self.back_top]
    }

    /// `r` is what commanding `preset` through `set_velocity` can report:
    /// each motor was sent its velocity, and `r` is the last failure among
    /// the three answers.
    pub open spec fn ran<E, F: Fn(&H, i32) -> Result<(), E>>(
        self,
        preset: Preset,
        set_velocity: F,
        r: Result<(), E>,
    ) -> bool {
        exists|outcomes: Seq<Result<(), E>>| #[trigger]
            indexed_answers(set_velocity, preset.rpm().in_order(), self.actuators(), outcomes) && r
                == last_failure(outcomes)
    }
}

/// The three motors of the intake.
pub struct IO<H> {
    front_bottom: H,
    middle: H,
    back_top: H,
}

impl<H> View for IO<H> {
    type V = Intake<H>;

    closed spec fn view(&self) -> Intake<H> {
        Intake { front_bottom: self.front_bottom, middle: self.middle, back_top: self.back_top }
    }
}

impl<H> IO<H> {
    /// The intake of these three motors.
    pub fn new(front_bottom: H, middle: H, back_top: H) -> (intake: Self)
        ensures
            intake@ == (Intake { front_bottom, middle, back_top }),
    {
        IO { front_bottom, middle, back_top }
    }

    /// Sends each motor the velocity that `preset` gives it, front bottom
    /// first and back top last, whatever the earlier motors answered, and
    /// reports the last failure.
    pub fn run<E, F: Fn(&H, i32) -> Result<(), E>>(
        &mut self,
        preset: Preset,
        set_velocity: F,
    ) -> (r: Result<(), E>)
        requires
            forall|h: H, rpm: i32| call_requires(set_velocity, (&h, rpm)),
        ensures
            final(self)@ == old(self)@,
            old(self)@.ran(preset, set_velocity, r),
    {
        let v = preset.velocities();
        let o0 = set_velocity(&self.front_bottom, v.front_bottom);
        let o1 = set_velocity(&self.middle, v.middle);
        let o2 = set_velocity(&self.back_top, v.back_top);
        proof {
            let none = Seq::<Result<(), E>>::empty();
            last_failure_after(none, o0);
            last_failure_after(none.push(o0), o1);
            last_failure_after(none.push(o0).push(o1), o2);
            let outcomes = seq![o0, o1, o2];
            assert(outcomes =~= none.push(o0).push(o1).push(o2));
            assert(indexed_answers(
                set_velocity,
                preset.rpm().in_order(),
                self@.actuators(),
                outcomes,
            ));
        }
        if o2.is_err() {
            o2
        } else if o1.is_err() {
            o1
        } else if o0.is_err() {
            o0
        } else {
            Ok(())
        }
    }
}

impl<H> IOFunc<H> for IO<H> {
    /// Takes game pieces in and stores them: -600, 300 and 0.
    fn intake_store<E, F: Fn(&H, i32) -> Result<(), E>>(
        &mut self,
        set_velocity: F,
    ) -> (r: Result<(), E>)
        ensures
            final(self)@ == old(self)@,
            old(self)@.ran(Preset::IntakeStore, set_velocity, r),
    {
        self.run(Preset::IntakeStore, set_velocity)
    }

    /// Puts game pieces out at the top: -600, 600 and 600.
    fn outtake_top<E, F: Fn(&H, i32) -> Result<(), E>>(
        &mut self,
        set_velocity: F,
    ) -> (r: Result<(), E>)
        ensures
            final(self)@ == old(self)@,
            old(self)@.ran(Preset::OuttakeTop, set_velocity, r),
    {
        self.run(Preset::OuttakeTop, set_velocity)
    }

    /// Puts game pieces out in the middle: -600, 600 and -600.
    fn outtake_middle<E, F: Fn(&H, i32) -> Result<(), E>>(
        &mut self,
        set_velocity: F,
    ) -> (r: Result<(), E>)
        ensures
            final(self)@ == old(self)@,
            old(self)@.ran(Preset::OuttakeMiddle, set_velocity, r),
    {
        self.run(Preset::OuttakeMiddle, set_velocity)
    }

    /// Puts game pieces out at the bottom: 600, -600 and 0.
    fn outtake_bottom<E, F: Fn(&H, i32) -> Result<(), E>>(
        &mut self,
        set_velocity: F,
    ) -> (r: Result<(), E>)
        ensures
            final(self)@ == old(self)@,
            old(self)@.ran(Preset::OuttakeBottom, set_velocity, r),
    {
        self.run(Preset::OuttakeBottom, set_velocity)
    }

    /// Stops all three motors.
    fn stop_intake<E, F: Fn(&H, i32) -> Result<(), E>>(
        &mut self,
        set_velocity: F,
    ) -> (r: Result<(), E>)
        ensures
            final(self)@ == old(self)@,
            old(self)@.ran(Preset::StopIntake, set_velocity, r),
    {
        self.run(Preset::StopIntake, set_velocity)
    }
}

} // verus!
