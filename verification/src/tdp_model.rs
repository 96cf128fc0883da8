//! The arbiter together with the hardware it governs, as a model, and what
//! holds of every run of the two.
//!
//! The hardware is one register. It reports its value, its range and whether
//! it can be used; a write changes the value when the register can be used
//! and fails otherwise. The arbiter is driven the way its caller drives it:
//! it is shown the register, decides, the write it asks for is made, and it
//! is told how the write ended.

use vstd::prelude::*;
use crate::error::Error;
use crate::lease::{acquired, released};
use crate::tdp_manager::{
    command_step, done, event_step, idle, range_contains, written_state, ActionView,
    ArbiterState, CommandView, DriverStatus, EventView,
};

verus! {

/// The limit register.
pub struct Register {
    pub limit: u32,
    pub min: u32,
    pub max: u32,
    pub active: bool,
}

/// The arbiter and the register it governs.
pub struct System {
    pub arbiter: ArbiterState,
    pub register: Register,
}

/// What can happen to the system.
pub enum Input {
    SetLimit(u32),
    EnterLease(Seq<char>),
    Release(Seq<char>),
}

/// What the register reports.
pub open spec fn status_of(register: Register) -> DriverStatus {
    DriverStatus {
        active: Ok(register.active),
        limit: if register.active {
            Ok(register.limit)
        } else {
            Err(Error::DriverInactive)
        },
        range: Ok((register.min, register.max)),
    }
}

/// How a write to the register ends.
pub open spec fn write_outcome(register: Register) -> Result<(), Error> {
    if register.active {
        Ok(())
    } else {
        Err(Error::DriverInactive)
    }
}

/// The register after a write.
pub open spec fn write_register(register: Register, limit: u32) -> Register {
    if register.active {
        Register { limit, ..register }
    } else {
        register
    }
}

/// The event that an input is to the arbiter.
pub open spec fn event_of(input: Input) -> EventView {
    match input {
        Input::SetLimit(limit) => EventView::Command(CommandView::SetTdpLimit(limit)),
        Input::EnterLease(key) => EventView::Command(CommandView::EnterDownloadMode(key, Ok(()))),
        Input::Release(key) => EventView::HandleClosed(key),
    }
}

/// One input: the arbiter decides on what the register reports, the write it
/// asks for is made, and it is told the outcome.
pub open spec fn system_step(system: System, input: Input) -> System {
    let (arbiter, action) = event_step(system.arbiter, event_of(input), status_of(system.register));
    match action {
        ActionView::Write(write) => System {
            arbiter: written_state(arbiter, write.purpose, write_outcome(system.register)),
            register: write_register(system.register, write.limit),
        },
        _ => System { arbiter, register: system.register },
    }
}

/// A run: the inputs one after the other.
pub open spec fn system_run(system: System, inputs: Seq<Input>) -> System
    decreases inputs.len(),
{
    if inputs.len() == 0 {
        system
    } else {
        system_step(system_run(system, inputs.drop_last()), inputs.last())
    }
}

/// The limit that callers last set with effect during a run: one set while
/// nobody held a lease, and within the range. Before any such, the limit that
/// the run began with.
pub open spec fn last_limit_set(system: System, inputs: Seq<Input>) -> u32
    decreases inputs.len(),
{
    if inputs.len() == 0 {
        system.register.limit
    } else {
        let before = system_run(system, inputs.drop_last());
        match inputs.last() {
            Input::SetLimit(limit) => if idle(before.arbiter) && range_contains(
                (before.register.min, before.register.max),
                limit,
            ) {
                limit
            } else {
                last_limit_set(system, inputs.drop_last())
            },
            _ => last_limit_set(system, inputs.drop_last()),
        }
    }
}

/// A system at rest that download mode can govern: nobody holds a lease,
/// nothing is remembered, the register can be used, and neither its value, nor
/// a value in its range, nor the download mode limit is zero.
pub open spec fn governable(system: System) -> bool {
    &&& idle(system.arbiter)
    &&& system.arbiter.previous_limit is None
    &&& system.arbiter.download_mode_limit != Some(0u32)
    &&& system.register.active
    &&& system.register.limit != 0
    &&& system.register.min >= 1
}

spec fn in_step(first: System, system: System, last_set: u32) -> bool {
    &&& system.arbiter.download_mode_limit == first.arbiter.download_mode_limit
    &&& system.register.active
    &&& system.register.min == first.register.min
    &&& system.register.max == first.register.max
    &&& system.register.min >= 1
    &&& system.register.limit != 0
    &&& last_set != 0
    &&& system.arbiter.download_mode_limit != Some(0u32)
    &&& if idle(system.arbiter) {
        &&& system.arbiter.previous_limit is None
        &&& system.register.limit == last_set
    } else {
        &&& system.arbiter.download_mode_limit is Some
        &&& system.arbiter.previous_limit == Some(last_set)
        &&& system.register.limit == system.arbiter.download_mode_limit->Some_0
    }
}

proof fn lemma_acquired_not_empty(leases: Map<Seq<char>, nat>, key: Seq<char>)
    ensures
        acquired(leases, key) != Map::<Seq<char>, nat>::empty(),
{
    assert(acquired(leases, key).dom().contains(key));
}

proof fn lemma_released_not_empty(leases: Map<Seq<char>, nat>, key: Seq<char>)
    requires
        !(leases.dom().contains(key) && leases[key] <= 1),
        leases != Map::<Seq<char>, nat>::empty(),
    ensures
        released(leases, key) != Map::<Seq<char>, nat>::empty(),
{
    if leases.dom().contains(key) {
        assert(released(leases, key).dom().contains(key));
    }
}

proof fn lemma_released_empty(key: Seq<char>)
    ensures
        released(Map::<Seq<char>, nat>::empty(), key) == Map::<Seq<char>, nat>::empty(),
{
}

spec fn next_set(system: System, input: Input, last_set: u32) -> u32 {
    match input {
        Input::SetLimit(limit) => if idle(system.arbiter) && range_contains(
            (system.register.min, system.register.max),
            limit,
        ) {
            limit
        } else {
            last_set
        },
        _ => last_set,
    }
}

proof fn lemma_set(first: System, system: System, last_set: u32, limit: u32)
    requires
        in_step(first, system, last_set),
    ensures
        in_step(
            first,
            system_step(system, Input::SetLimit(limit)),
            next_set(system, Input::SetLimit(limit), last_set),
        ),
{
}

proof fn lemma_enter(first: System, system: System, last_set: u32, key: Seq<char>)
    requires
        in_step(first, system, last_set),
    ensures
        in_step(first, system_step(system, Input::EnterLease(key)), last_set),
{
    lemma_acquired_not_empty(system.arbiter.leases, key);
    let status = status_of(system.register);
    let entered = ArbiterState { leases: acquired(system.arbiter.leases, key), ..system.arbiter };
    assert(!idle(entered));
}

proof fn lemma_release(first: System, system: System, last_set: u32, key: Seq<char>)
    requires
        in_step(first, system, last_set),
    ensures
        in_step(first, system_step(system, Input::Release(key)), last_set),
{
    let leases = system.arbiter.leases;
    let next = ArbiterState { leases: released(leases, key), ..system.arbiter };
    if leases.dom().contains(key) && leases[key] <= 1 {
        assert(!idle(system.arbiter)) by {
            if idle(system.arbiter) {
                assert(!Map::<Seq<char>, nat>::empty().dom().contains(key));
            }
        }
    } else if idle(system.arbiter) {
        lemma_released_empty(key);
    } else {
        lemma_released_not_empty(leases, key);
    }
}

proof fn lemma_run(first: System, inputs: Seq<Input>)
    requires
        governable(first),
    ensures
        in_step(first, system_run(first, inputs), last_limit_set(first, inputs)),
    decreases inputs.len(),
{
    if inputs.len() > 0 {
        let rest = inputs.drop_last();
        lemma_run(first, rest);
        let before = system_run(first, rest);
        let set_before = last_limit_set(first, rest);
        match inputs.last() {
            Input::SetLimit(limit) => {
                lemma_set(first, before, set_before, limit);
            },
            Input::EnterLease(key) => {
                lemma_enter(first, before, set_before, key);
            },
            Input::Release(key) => {
                lemma_release(first, before, set_before, key);
            },
        }
    }
}

/// Lease exclusivity. Take a system at rest that download mode can govern,
/// and any inputs. After them the register holds the download mode limit if
/// somebody holds a lease, and otherwise the limit that callers last set with
/// effect.
pub proof fn lease_exclusivity(first: System, inputs: Seq<Input>)
    requires
        governable(first),
    ensures
        ({
            let last = system_run(first, inputs);
            if idle(last.arbiter) {
                last.register.limit == last_limit_set(first, inputs)
            } else {
                Some(last.register.limit) == first.arbiter.download_mode_limit
            }
        }),
{
    lemma_run(first, inputs);
}

/// Discarded intent, at the arbiter. While somebody holds a lease, a request
/// to set the limit is accepted and dropped: no write is asked for, nothing
/// is replied, and the arbiter is as it was, so that nothing is left to
/// happen later.
pub proof fn discarded_intent(state: ArbiterState, limit: u32, status: DriverStatus)
    requires
        !idle(state),
    ensures
        command_step(state, CommandView::SetTdpLimit(limit), status) == (state, done(Ok(()))),
{
}

/// Discarded intent, in a run. Setting the limit while somebody holds a lease
/// leaves the system as it was: the register keeps its value, and every run
/// from there goes as if the limit had never been set.
pub proof fn discarded_intent_in_run(system: System, limit: u32, later: Seq<Input>)
    requires
        !idle(system.arbiter),
    ensures
        system_step(system, Input::SetLimit(limit)) == system,
        system_run(system_step(system, Input::SetLimit(limit)), later) == system_run(system, later),
{
}

/// Range rejection. While nobody holds a lease, a limit outside the range
/// that the method reports is refused with `Error::Range`: no write is asked
/// for and the arbiter is as it was.
pub proof fn range_rejection(state: ArbiterState, limit: u32, status: DriverStatus)
    requires
        idle(state),
        status.range is Ok,
        !range_contains(status.range->Ok_0, limit),
    ensures
        command_step(state, CommandView::SetTdpLimit(limit), status) == (
            state,
            done(Err(Error::Range)),
        ),
{
}

/// Range rejection, in a run: the register keeps its value.
pub proof fn range_rejection_in_run(system: System, limit: u32)
    requires
        idle(system.arbiter),
        !range_contains((system.register.min, system.register.max), limit),
    ensures
        system_step(system, Input::SetLimit(limit)) == system,
{
}

/// Reference counting. A lease given up right after it was taken out leaves
/// the table as it was, given that every count in the table is positive.
pub proof fn acquire_then_release(leases: Map<Seq<char>, nat>, key: Seq<char>)
    requires
        leases.dom().contains(key) ==> leases[key] >= 1,
    ensures
        released(acquired(leases, key), key) == leases,
{
    assert(released(acquired(leases, key), key) =~= leases);
}

/// Reference counting. Each acquisition adds one to the count of its key and
/// each release takes one off, a count of one ending in the key's removal;
/// other keys are not touched.
pub proof fn reference_counting(leases: Map<Seq<char>, nat>, key: Seq<char>, other: Seq<char>)
    requires
        other != key,
    ensures
        acquired(leases, key).dom().contains(key),
        acquired(leases, key)[key] == if leases.dom().contains(key) {
            leases[key] + 1
        } else {
            1
        },
        leases.dom().contains(key) && leases[key] > 1 ==> released(leases, key)[key] == leases[key]
            - 1,
        leases.dom().contains(key) && leases[key] <= 1 ==> !released(leases, key).dom().contains(
            key,
        ),
        acquired(leases, key).dom().contains(other) == leases.dom().contains(other),
        released(leases, key).dom().contains(other) == leases.dom().contains(other),
        leases.dom().contains(other) ==> acquired(leases, key)[other] == leases[other] && released(
            leases,
            key,
        )[other] == leases[other],
{
}

} // verus!
