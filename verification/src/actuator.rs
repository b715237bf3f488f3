//! What is said of a single actuator: how it brakes, and the handle
//! through which several owners reach the same one.

use std::rc::Rc;
use vstd::prelude::*;

verus! {

/// What a motor does once it is told to stop.
#[derive(Clone, Copy, Debug, PartialEq, Eq, Structural)]
pub enum BrakeMode {
    /// The motor spins down freely.
    Coast,
    /// The motor brakes against its own motion.
    Brake,
    /// The motor holds its position.
    Hold,
}

/// `Rc::clone`: the pointer that comes back points to the value that
/// `actuator` points to. Believed of std, not proved.
#[verifier::external_body]
fn another_pointer<A>(actuator: &Rc<A>) -> (shared: Rc<A>)
    ensures
        *shared == **actuator,
{
    Rc::clone(actuator)
}

/// A handle to one actuator. Every handle made by [`share`] refers to the
/// actuator that the first one was made for, and the actuator lives as
/// long as its longest-lived handle.
///
/// [`share`]: SharedActuatorHandle::share
pub struct SharedActuatorHandle<A> {
    actuator: Rc<A>,
}

impl<A> View for SharedActuatorHandle<A> {
    type V = A;

    closed spec fn view(&self) -> A {
        *self.actuator
    }
}

impl<A> SharedActuatorHandle<A> {
    /// The first handle to `actuator`.
    pub fn new(actuator: A) -> (handle: Self)
        ensures
            handle@ == actuator,
    {
        SharedActuatorHandle { actuator: Rc::new(actuator) }
    }

    /// One more handle to the same actuator.
    pub fn share(&self) -> (handle: Self)
        ensures
            handle@ == self@,
    {
        SharedActuatorHandle { actuator: another_pointer(&self.actuator) }
    }

    /// Hands the actuator to `f` and returns what `f` returns; nothing
    /// else happens.
    pub fn with_exclusive_access<R, F: FnOnce(&A) -> R>(&self, f: F) -> (r: R)
        requires
            call_requires(f, (&self@,)),
        ensures
            call_ensures(f, (&self@,), r),
    {
        f(&*self.actuator)
    }
}

} // verus!
