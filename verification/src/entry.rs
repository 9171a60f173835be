//! The firmware's entry point: one live state, in which the USB stack is
//! serviced over and over, and a terminal state that nothing leads to.

use vstd::prelude::*;

verus! {

/// The state of the entry point.
#[derive(Clone, Copy, Debug, PartialEq, Eq, Structural)]
pub enum EntryState {
    /// The stack is being serviced. This is the state after reset.
    Running,
    /// Execution has stopped for good. No step leads here.
    Terminated,
}

/// What the entry point does in one step.
#[derive(Clone, Copy, Debug, PartialEq, Eq, Structural)]
pub enum EntryAction {
    /// Call the stack's task-processing function once.
    ServiceUsb,
    /// Stay in place and do nothing further.
    Halt,
}

/// One step: the state after it and what is done in it. While running, the
/// stack is serviced once and the entry point keeps running, whatever
/// happened inside the stack. Once terminated, it halts in place.
pub open spec fn step_of(state: EntryState) -> (EntryState, EntryAction) {
    match state {
        EntryState::Running => (EntryState::Running, EntryAction::ServiceUsb),
        EntryState::Terminated => (EntryState::Terminated, EntryAction::Halt),
    }
}

/// The state after the given number of steps from reset.
pub open spec fn state_after(steps: nat) -> EntryState
    decreases steps,
{
    if steps == 0 {
        EntryState::Running
    } else {
        step_of(state_after((steps - 1) as nat)).0
    }
}

/// The number of calls of the task-processing function in the given number
/// of steps from reset.
pub open spec fn calls_after(steps: nat) -> nat
    decreases steps,
{
    if steps == 0 {
        0
    } else {
        let before = calls_after((steps - 1) as nat);
        if step_of(state_after((steps - 1) as nat)).1 == EntryAction::ServiceUsb {
            before + 1
        } else {
            before
        }
    }
}

/// The state at power-on or reset. There is no set-up step before it.
pub fn power_on() -> (state: EntryState)
    ensures
        state == state_after(0),
        state == EntryState::Running,
{
    EntryState::Running
}

/// Decides one step of the entry point.
pub fn step(state: EntryState) -> (r: (EntryState, EntryAction))
    ensures
        r == step_of(state),
{
    match state {
        EntryState::Running => (EntryState::Running, EntryAction::ServiceUsb),
        EntryState::Terminated => (EntryState::Terminated, EntryAction::Halt),
    }
}

/// Runs the entry point for a bounded number of steps from reset, without
/// the stack behind it, and gives the state it is left in and the number of
/// calls of the task-processing function that it asked for.
pub fn drive(steps: u64) -> (r: (EntryState, u64))
    ensures
        r.0 == state_after(steps as nat),
        r.1 as nat == calls_after(steps as nat),
        r.0 == EntryState::Running,
        r.1 == steps,
{
    let mut state: EntryState = power_on();
    let mut calls: u64 = 0;
    let mut done: u64 = 0;
    while done < steps
        invariant
            done <= steps,
            state == state_after(done as nat),
            calls as nat == calls_after(done as nat),
            calls <= done,
        decreases steps - done,
    {
        let (next, action) = step(state);
        match action {
            EntryAction::ServiceUsb => {
                calls += 1;
            },
            EntryAction::Halt => {},
        }
        state = next;
        done += 1;
    }
    proof {
        lemma_entry_never_returns(steps as nat);
    }
    (state, calls)
}

/// The entry point never leaves the running state, and it calls the
/// task-processing function exactly once in every step: after any number of
/// steps it is running and has made that number of calls.
pub proof fn lemma_entry_never_returns(steps: nat)
    ensures
        state_after(steps) == EntryState::Running,
        calls_after(steps) == steps,
        step_of(state_after(steps)).1 == EntryAction::ServiceUsb,
    decreases steps,
{
    if steps > 0 {
        lemma_entry_never_returns((steps - 1) as nat);
    }
}

} // verus!
