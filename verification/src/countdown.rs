use vstd::prelude::*;

verus! {

/// Length of one polling tick, in milliseconds.
pub const TICK_MILLIS: u64 = 100;

/// Milliseconds in one second.
pub const MILLIS_PER_SECOND: u64 = 1000;

/// What one counted tick did to a countdown.
#[derive(Clone, Copy, Debug, PartialEq, Eq, Structural)]
pub enum Progress {
    /// The duration is not reached yet; `advance` whole seconds have newly
    /// elapsed since the last report.
    Pending { advance: u64 },
    /// The duration is reached.
    Complete,
}

/// The timed wait of one phase. Only time that is credited to it counts as
/// elapsed, so a caller freezes it by crediting nothing.
#[derive(Clone, Copy, Debug, PartialEq, Eq, Structural)]
pub struct Countdown {
    /// Length of the phase, in whole seconds.
    pub total_secs: u64,
    /// Time credited so far, in milliseconds.
    pub counted_millis: u64,
    /// Whole seconds already reported as elapsed.
    pub shown_secs: u64,
}

impl Countdown {
    /// A countdown of `total_secs` seconds on which no time has passed.
    pub open spec fn fresh(total_secs: u64) -> Countdown {
        Countdown { total_secs, counted_millis: 0, shown_secs: 0 }
    }

    /// Whole seconds credited so far.
    pub open spec fn spec_elapsed_secs(&self) -> u64 {
        self.counted_millis / MILLIS_PER_SECOND
    }

    /// Whether the credited time has reached the phase's length.
    pub open spec fn spec_is_complete(&self) -> bool {
        self.spec_elapsed_secs() >= self.total_secs
    }

    /// No more seconds are reported than have elapsed.
    pub open spec fn wf(&self) -> bool {
        self.shown_secs <= self.spec_elapsed_secs()
    }

    /// The credited time after `millis` more are credited. It stops at the
    /// largest value that 64 bits hold.
    pub open spec fn credit(&self, millis: u64) -> u64 {
        if self.counted_millis + millis > u64::MAX {
            u64::MAX
        } else {
            (self.counted_millis + millis) as u64
        }
    }

    /// The countdown after a tick that lasted `millis` is counted: the time is
    /// credited and, unless that completes the phase, every elapsed second
    /// counts as reported.
    pub open spec fn counted(&self, millis: u64) -> Countdown {
        let credited = Countdown { counted_millis: self.credit(millis), ..*self };
        if credited.spec_is_complete() {
            credited
        } else {
            Countdown { shown_secs: credited.spec_elapsed_secs(), ..credited }
        }
    }

    /// What counting a tick that lasted `millis` reports.
    pub open spec fn progress(&self, millis: u64) -> Progress {
        let credited = Countdown { counted_millis: self.credit(millis), ..*self };
        if credited.spec_is_complete() {
            Progress::Complete
        } else {
            Progress::Pending { advance: (credited.spec_elapsed_secs() - self.shown_secs) as u64 }
        }
    }

    /// The countdown after `ticks` ticks of exactly `TICK_MILLIS` each.
    pub open spec fn ticked(&self, ticks: nat) -> Countdown
        decreases ticks,
    {
        if ticks == 0 {
            *self
        } else {
            self.ticked((ticks - 1) as nat).counted(TICK_MILLIS)
        }
    }

    /// Starts a countdown of `total_secs` seconds.
    pub fn new(total_secs: u64) -> (c: Self)
        ensures
            c == Self::fresh(total_secs),
            c.wf(),
    {
        Countdown { total_secs, counted_millis: 0, shown_secs: 0 }
    }

    /// Whole seconds credited so far.
    #[verifier::when_used_as_spec(spec_elapsed_secs)]
    pub fn elapsed_secs(&self) -> (secs: u64)
        ensures
            secs == self.spec_elapsed_secs(),
    {
        self.counted_millis / MILLIS_PER_SECOND
    }

    /// Whether the credited time has reached the phase's length.
    #[verifier::when_used_as_spec(spec_is_complete)]
    pub fn is_complete(&self) -> (done: bool)
        ensures
            done == self.spec_is_complete(),
    {
        self.elapsed_secs() >= self.total_secs
    }

    /// Counts a tick that lasted `slept_millis`.
    pub fn record(&mut self, slept_millis: u64) -> (p: Progress)
        requires
            old(self).wf(),
        ensures
            *final(self) == old(self).counted(slept_millis),
            p == old(self).progress(slept_millis),
            final(self).wf(),
            final(self).elapsed_secs() >= old(self).elapsed_secs(),
            p is Complete <==> final(self).is_complete(),
    {
        self.counted_millis = self.counted_millis.saturating_add(slept_millis);
        let elapsed: u64 = self.elapsed_secs();
        if elapsed >= self.total_secs {
            Progress::Complete
        } else {
            let advance: u64 = elapsed - self.shown_secs;
            self.shown_secs = elapsed;
            Progress::Pending { advance }
        }
    }
}

/// Steady ticks add up: after `ticks` ticks of `TICK_MILLIS` each, a fresh
/// countdown has been credited `ticks * TICK_MILLIS` milliseconds, and it is
/// complete exactly from the tick on at which that time reaches its length.
pub proof fn lemma_steady_ticks(total_secs: u64, ticks: nat)
    requires
        ticks * TICK_MILLIS <= u64::MAX,
    ensures
        Countdown::fresh(total_secs).ticked(ticks).total_secs == total_secs,
        Countdown::fresh(total_secs).ticked(ticks).counted_millis == ticks * TICK_MILLIS,
        Countdown::fresh(total_secs).ticked(ticks).wf(),
        Countdown::fresh(total_secs).ticked(ticks).is_complete() <==> ticks >= 10 * total_secs,
    decreases ticks,
{
    if ticks > 0 {
        lemma_steady_ticks(total_secs, (ticks - 1) as nat);
    }
}

/// An undisturbed phase takes ten ticks for each of its seconds: on a fresh
/// countdown of `total_secs` seconds, of steady ticks of `TICK_MILLIS` each,
/// the one numbered `tick` leaves the phase pending while `tick` is below
/// `10 * total_secs`, and completes it when `tick` reaches that number (or
/// is the first, for a phase of no length). The ticks up to it then add up
/// to the phase's length.
pub proof fn lemma_ticks_of_a_phase(total_secs: u64, tick: nat)
    requires
        tick >= 1,
        tick * TICK_MILLIS <= u64::MAX,
    ensures
        tick < 10 * total_secs ==> Countdown::fresh(total_secs).ticked((tick - 1) as nat).progress(
            TICK_MILLIS,
        ) is Pending,
        tick >= 10 * total_secs ==> Countdown::fresh(total_secs).ticked(
            (tick - 1) as nat,
        ).progress(TICK_MILLIS) is Complete,
        tick == 10 * total_secs ==> tick * TICK_MILLIS == total_secs * MILLIS_PER_SECOND,
{
    lemma_steady_ticks(total_secs, (tick - 1) as nat);
    lemma_steady_ticks(total_secs, tick);
}

} // verus!
