use crate::pomodoro::{Clock, Notifier, State, StateType, StatusSink};
use vstd::prelude::*;

verus! {

/// A clock that stands still but for the waits asked of it: each wait is
/// written down and moves the reading on by exactly its length, up to the
/// largest reading that 64 bits hold.
pub struct FakeClock {
    pub now: u64,
    pub sleeps: Vec<u64>,
}

impl FakeClock {
    /// A clock that reads `start` and has not been asked to wait.
    pub fn new(start: u64) -> (clock: Self)
        ensures
            clock.now == start,
            clock.sleeps@ == Seq::<u64>::empty(),
    {
        FakeClock { now: start, sleeps: Vec::new() }
    }
}

impl Clock for FakeClock {
    fn now(&self) -> (reading: u64)
        ensures
            reading == self.now,
    {
        self.now
    }

    fn sleep(&mut self, millis: u64)
        ensures
            final(self).sleeps@ == old(self).sleeps@.push(millis),
            final(self).now == if old(self).now + millis > u64::MAX {
                u64::MAX
            } else {
                (old(self).now + millis) as u64
            },
    {
        self.sleeps.push(millis);
        self.now = self.now.saturating_add(millis);
    }
}

/// A status sink that writes down the phase of every state it is shown.
pub struct FakeStatus {
    pub updates: Vec<StateType>,
}

impl FakeStatus {
    /// A sink that has been shown nothing.
    pub fn new() -> (status: Self)
        ensures
            status.updates@ == Seq::<StateType>::empty(),
    {
        FakeStatus { updates: Vec::new() }
    }
}

impl StatusSink for FakeStatus {
    fn update(&mut self, state: &State)
        ensures
            final(self).updates@ == old(self).updates@.push(state.state_type),
    {
        self.updates.push(state.state_type);
    }
}

/// A notifier that writes down the phase of every alert.
pub struct FakeNotifier {
    pub alerts: Vec<StateType>,
}

impl FakeNotifier {
    /// A notifier that has raised no alert.
    pub fn new() -> (notifier: Self)
        ensures
            notifier.alerts@ == Seq::<StateType>::empty(),
    {
        FakeNotifier { alerts: Vec::new() }
    }
}

impl Notifier for FakeNotifier {
    fn alert_state_change(&mut self, completed: StateType)
        ensures
            final(self).alerts@ == old(self).alerts@.push(completed),
    {
        self.alerts.push(completed);
    }
}

} // verus!
