//! Groups of actuators that are commanded as one: every member is
//! commanded, whatever the earlier ones answered, and the last failure is
//! what the caller hears of.

use crate::actuator::BrakeMode;
use vstd::prelude::*;

verus! {

/// The one outcome reported for a run of outcomes: the last failure among
/// them, or success where there is none.
pub open spec fn last_failure<E>(outcomes: Seq<Result<(), E>>) -> Result<(), E>
    decreases outcomes.len(),
{
    if outcomes.len() == 0 {
        Ok(())
    } else if outcomes.last() is Err {
        outcomes.last()
    } else {
        last_failure(outcomes.drop_last())
    }
}

/// Success is reported exactly when every outcome is a success.
pub proof fn success_means_all_succeeded<E>(outcomes: Seq<Result<(), E>>)
    ensures
        last_failure(outcomes) is Ok <==> forall|i: int|
            0 <= i < outcomes.len() ==> (#[trigger] outcomes[i]) is Ok,
    decreases outcomes.len(),
{
    if outcomes.len() > 0 {
        let front = outcomes.drop_last();
        success_means_all_succeeded(front);
        if outcomes.last() is Err {
            assert(!(outcomes[outcomes.len() - 1] is Ok));
        } else if last_failure(front) is Ok {
            assert forall|i: int| 0 <= i < outcomes.len() implies (#[trigger] outcomes[i]) is Ok by {
                if i < front.len() {
                    assert(front[i] is Ok);
                }
            }
        } else {
            let k = choose|k: int| 0 <= k < front.len() && !((#[trigger] front[k]) is Ok);
            assert(!(outcomes[k] is Ok));
        }
    }
}

/// A reported failure is one of the outcomes, and every outcome after it
/// is a success: no failure is dropped in favour of an earlier one.
pub proof fn failure_is_the_last_one<E>(outcomes: Seq<Result<(), E>>)
    requires
        last_failure(outcomes) is Err,
    ensures
        exists|i: int|
            0 <= i < outcomes.len() && #[trigger] outcomes[i] == last_failure(outcomes) && forall|
                j: int,
            |
                i < j < outcomes.len() ==> (#[trigger] outcomes[j]) is Ok,
    decreases outcomes.len(),
{
    if outcomes.last() is Err {
        let i = outcomes.len() - 1;
        assert(outcomes[i] == last_failure(outcomes));
    } else {
        let front = outcomes.drop_last();
        failure_is_the_last_one(front);
        let i = choose|i: int|
            0 <= i < front.len() && #[trigger] front[i] == last_failure(front) && forall|j: int|
                i < j < front.len() ==> (#[trigger] front[j]) is Ok;
        assert(outcomes[i] == last_failure(outcomes));
        assert forall|j: int| i < j < outcomes.len() implies (#[trigger] outcomes[j]) is Ok by {
            if j < front.len() {
                assert(front[j] is Ok);
            }
        }
    }
}

/// One more outcome at the end of a run is what is reported if it is a
/// failure, and leaves the report as it was if it is a success.
pub proof fn last_failure_after<E>(run: Seq<Result<(), E>>, outcome: Result<(), E>)
    ensures
        last_failure(run.push(outcome)) == if outcome is Err {
            outcome
        } else {
            last_failure(run)
        },
{
    assert(run.push(outcome).drop_last() =~= run);
}

/// Of two runs one after the other, the failure reported is that of the
/// second run where it has one, and that of the first run where it has
/// none.
pub proof fn last_failure_of_two_runs<E>(first: Seq<Result<(), E>>, second: Seq<Result<(), E>>)
    ensures
        last_failure(first + second) == if last_failure(second) is Err {
            last_failure(second)
        } else {
            last_failure(first)
        },
    decreases second.len(),
{
    if second.len() == 0 {
        assert(first + second =~= first);
    } else {
        assert((first + second).drop_last() =~= first + second.drop_last());
        assert((first + second).last() == second.last());
        last_failure_of_two_runs(first, second.drop_last());
    }
}

/// `outcomes` holds, member by member and in their order, an answer that
/// `op` can give for that member.
pub open spec fn answers<H, E, F: Fn(&H) -> Result<(), E>>(
    op: F,
    members: Seq<H>,
    outcomes: Seq<Result<(), E>>,
) -> bool {
    &&& outcomes.len() == members.len()
    &&& forall|i: int|
        0 <= i < members.len() ==> call_ensures(op, (&members[i],), #[trigger] outcomes[i])
}

/// `outcomes` holds, member by member, an answer that `op` can give for
/// that member and `value`.
pub open spec fn uniform_answers<H, V, E, F: Fn(&H, V) -> Result<(), E>>(
    op: F,
    value: V,
    members: Seq<H>,
    outcomes: Seq<Result<(), E>>,
) -> bool {
    &&& outcomes.len() == members.len()
    &&& forall|i: int|
        0 <= i < members.len() ==> call_ensures(op, (&members[i], value), #[trigger] outcomes[i])
}

/// `outcomes` holds, member by member, an answer that `op` can give for
/// that member and the value at the member's position in `values`.
pub open spec fn indexed_answers<H, V, E, F: Fn(&H, V) -> Result<(), E>>(
    op: F,
    values: Seq<V>,
    members: Seq<H>,
    outcomes: Seq<Result<(), E>>,
) -> bool {
    &&& outcomes.len() == members.len()
    &&& forall|i: int|
        0 <= i < members.len() ==> call_ensures(
            op,
            (&members[i], values[i]),
            #[trigger] outcomes[i],
        )
}

/// The one outcome reported for `outcomes`: the last failure among them,
/// or success where there is none.
pub fn report<E>(outcomes: Vec<Result<(), E>>) -> (r: Result<(), E>)
    ensures
        r == last_failure(outcomes@),
{
    let mut rest = outcomes;
    while rest.len() > 0
        invariant
            last_failure(rest@) == last_failure(outcomes@),
        decreases rest.len(),
    {
        let ghost before = rest@;
        let outcome = rest.pop();
        proof {
            assert(rest@ =~= before.drop_last());
        }
        match outcome {
            Some(Err(e)) => {
                return Err(e);
            },
            _ => {},
        }
    }
    Ok(())
}

/// An ordered group of actuator handles that stands for one mechanical
/// unit. Its size is that of the `Vec` it was made from, for good.
pub struct ActuatorGroup<H> {
    members: Vec<H>,
}

impl<H> View for ActuatorGroup<H> {
    type V = Seq<H>;

    closed spec fn view(&self) -> Seq<H> {
        self.members@
    }
}

impl<H> ActuatorGroup<H> {
    /// The group of `members`, in their order.
    pub fn new(members: Vec<H>) -> (group: Self)
        ensures
            group@ == members@,
    {
        ActuatorGroup { members }
    }

    /// The number of members.
    pub fn len(&self) -> (n: usize)
        ensures
            n == self@.len(),
    {
        self.members.len()
    }

    /// The member at position `i`, where the group has one there.
    pub fn member(&self, i: usize) -> (h: Option<&H>)
        ensures
            i < self@.len() ==> h is Some && *h->0 == self@[i as int],
            i >= self@.len() ==> h is None,
    {
        if i < self.members.len() {
            Some(&self.members[i])
        } else {
            None
        }
    }

    /// Calls `op` on every member, in order and whatever the earlier calls
    /// answered, and returns every answer, in the members' order.
    pub fn attempt_all<E, F: Fn(&H) -> Result<(), E>>(
        &self,
        op: F,
    ) -> (outcomes: Vec<Result<(), E>>)
        requires
            forall|i: int| 0 <= i < self@.len() ==> call_requires(op, (&self@[i],)),
        ensures
            answers(op, self@, outcomes@),
    {
        let mut outcomes: Vec<Result<(), E>> = Vec::new();
        let mut i: usize = 0;
        while i < self.members.len()
            invariant
                i <= self.members.len(),
                self@ == self.members@,
                outcomes@.len() == i,
                forall|k: int| 0 <= k < self@.len() ==> call_requires(op, (&self@[k],)),
                forall|k: int|
                    0 <= k < i ==> call_ensures(op, (&self@[k],), #[trigger] outcomes@[k]),
            decreases self.members.len() - i,
        {
            let outcome = op(&self.members[i]);
            outcomes.push(outcome);
            i = i + 1;
        }
        outcomes
    }

    /// Calls `op` on every member, in order and whatever the earlier calls
    /// answered, and reports the last failure.
    pub fn apply_all<E, F: Fn(&H) -> Result<(), E>>(&self, op: F) -> (r: Result<(), E>)
        requires
            forall|i: int| 0 <= i < self@.len() ==> call_requires(op, (&self@[i],)),
        ensures
            exists|outcomes: Seq<Result<(), E>>| #[trigger]
                answers(op, self@, outcomes) && r == last_failure(outcomes),
    {
        let outcomes = self.attempt_all(op);
        proof {
            assert(answers(op, self@, outcomes@));
        }
        report(outcomes)
    }

    /// Calls `op` with `value` on every member, in order and whatever the
    /// earlier calls answered, and reports the last failure.
    pub fn command_all<V: Copy, E, F: Fn(&H, V) -> Result<(), E>>(
        &self,
        value: V,
        op: F,
    ) -> (r: Result<(), E>)
        requires
            forall|i: int| 0 <= i < self@.len() ==> call_requires(op, (&self@[i], value)),
        ensures
            exists|outcomes: Seq<Result<(), E>>| #[trigger]
                uniform_answers(op, value, self@, outcomes) && r == last_failure(outcomes),
    {
        let mut r: Result<(), E> = Ok(());
        let ghost mut outcomes: Seq<Result<(), E>> = Seq::empty();
        let mut i: usize = 0;
        while i < self.members.len()
            invariant
                i <= self.members.len(),
                self@ == self.members@,
                outcomes.len() == i,
                forall|k: int| 0 <= k < self@.len() ==> call_requires(op, (&self@[k], value)),
                forall|k: int|
                    0 <= k < i ==> call_ensures(op, (&self@[k], value), #[trigger] outcomes[k]),
                r == last_failure(outcomes),
            decreases self.members.len() - i,
        {
            let outcome = op(&self.members[i], value);
            proof {
                let longer = outcomes.push(outcome);
                assert(longer.drop_last() =~= outcomes);
                outcomes = longer;
            }
            if outcome.is_err() {
                r = outcome;
            }
            i = i + 1;
        }
        proof {
            assert(uniform_answers(op, value, self@, outcomes));
        }
        r
    }

    /// Sets every member to brake in `mode`, through `brake`.
    pub fn brake_all<E, F: Fn(&H, BrakeMode) -> Result<(), E>>(
        &self,
        mode: BrakeMode,
        brake: F,
    ) -> (r: Result<(), E>)
        requires
            forall|i: int| 0 <= i < self@.len() ==> call_requires(brake, (&self@[i], mode)),
        ensures
            exists|outcomes: Seq<Result<(), E>>| #[trigger]
                uniform_answers(brake, mode, self@, outcomes) && r == last_failure(outcomes),
    {
        self.command_all(mode, brake)
    }

    /// Sets the member at each position to the command at that position,
    /// through `set`: one command per member.
    pub fn move_all<E, F: Fn(&H, i64) -> Result<(), E>>(
        &self,
        command: &Vec<i64>,
        set: F,
    ) -> (r: Result<(), E>)
        requires
            command@.len() == self@.len(),
            forall|i: int| 0 <= i < self@.len() ==> call_requires(set, (&self@[i], command@[i])),
        ensures
            exists|outcomes: Seq<Result<(), E>>| #[trigger]
                indexed_answers(set, command@, self@, outcomes) && r == last_failure(outcomes),
    {
        let mut r: Result<(), E> = Ok(());
        let ghost mut outcomes: Seq<Result<(), E>> = Seq::empty();
        let mut i: usize = 0;
        while i < self.members.len()
            invariant
                i <= self.members.len(),
                self@ == self.members@,
                command@.len() == self@.len(),
                outcomes.len() == i,
                forall|k: int|
                    0 <= k < self@.len() ==> call_requires(set, (&self@[k], command@[k])),
                forall|k: int|
                    0 <= k < i ==> call_ensures(
                        set,
                        (&self@[k], command@[k]),
                        #[trigger] outcomes[k],
                    ),
                r == last_failure(outcomes),
            decreases self.members.len() - i,
        {
            let outcome = set(&self.members[i], command[i]);
            proof {
                let longer = outcomes.push(outcome);
                assert(longer.drop_last() =~= outcomes);
                outcomes = longer;
            }
            if outcome.is_err() {
                r = outcome;
            }
            i = i + 1;
        }
        proof {
            assert(indexed_answers(set, command@, self@, outcomes));
        }
        r
    }
}

} // verus!
