use crate::conf::Config;
use crate::countdown::{Countdown, Progress, TICK_MILLIS};
use std::sync::atomic::AtomicBool;
use std::sync::atomic::Ordering;
use std::sync::Arc;
use vstd::prelude::*;

verus! {

/// The phase that the timer is in.
#[derive(Clone, Copy, Debug, PartialEq, Eq, Structural)]
pub enum StateType {
    Work,
    ShortBreak,
    LongBreak,
}

impl StateType {
    /// The words that a display shows for the phase.
    pub open spec fn label_spec(&self) -> Seq<char> {
        match *self {
            StateType::Work => "Work in progress"@,
            StateType::ShortBreak => "Short Break"@,
            StateType::LongBreak => "Long Break"@,
        }
    }

    /// The words that a display shows for the phase.
    pub fn label(&self) -> (text: String)
        ensures
            text@ == self.label_spec(),
    {
        match *self {
            StateType::Work => String::from_str("Work in progress"),
            StateType::ShortBreak => String::from_str("Short Break"),
            StateType::LongBreak => String::from_str("Long Break"),
        }
    }
}

/// The phase that follows `phase`, and the count of completed work phases
/// with it. A work phase counts as completed when it is left, and leads to
/// the long break when that brings the count to `threshold`, to a short break
/// otherwise. The count is compared for equality and never taken back.
pub open spec fn transition(phase: StateType, cycles: u32, threshold: u32) -> (StateType, u32)
    recommends
        phase is Work ==> cycles < u32::MAX,
{
    match phase {
        StateType::Work => if cycles + 1 == threshold {
            (StateType::LongBreak, (cycles + 1) as u32)
        } else {
            (StateType::ShortBreak, (cycles + 1) as u32)
        },
        StateType::ShortBreak => (StateType::Work, cycles),
        StateType::LongBreak => (StateType::Work, cycles),
    }
}

/// The phase and the count after `steps` transitions from the first work
/// phase, with no work phase completed before it.
pub open spec fn phase_after(steps: nat, threshold: u32) -> (StateType, u32)
    decreases steps,
{
    if steps == 0 {
        (StateType::Work, 0)
    } else {
        let before = phase_after((steps - 1) as nat, threshold);
        transition(before.0, before.1, threshold)
    }
}

/// How many of the first `steps` phases are short breaks.
pub open spec fn short_breaks_among(steps: nat, threshold: u32) -> nat
    decreases steps,
{
    if steps == 0 {
        0
    } else {
        let earlier = short_breaks_among((steps - 1) as nat, threshold);
        if phase_after((steps - 1) as nat, threshold).0 is ShortBreak {
            earlier + 1
        } else {
            earlier
        }
    }
}

/// How many of the first `steps` phases are long breaks.
pub open spec fn long_breaks_among(steps: nat, threshold: u32) -> nat
    decreases steps,
{
    if steps == 0 {
        0
    } else {
        let earlier = long_breaks_among((steps - 1) as nat, threshold);
        if phase_after((steps - 1) as nat, threshold).0 is LongBreak {
            earlier + 1
        } else {
            earlier
        }
    }
}

/// Up to the first long break the phases alternate between work and short
/// break: with a long break after every `threshold` work phases, phase
/// `2 * k` is the work phase that follows `k` completed ones, and phase
/// `2 * k + 1` is a short break, until phase `2 * threshold - 1`, which is
/// the long break.
pub proof fn lemma_phases_until_long_break(threshold: u32, steps: nat)
    requires
        threshold >= 1,
        steps <= 2 * threshold - 1,
    ensures
        steps % 2 == 0 ==> phase_after(steps, threshold) == (StateType::Work, (steps / 2) as u32),
        steps % 2 == 1 && steps < 2 * threshold - 1 ==> phase_after(steps, threshold) == (
            StateType::ShortBreak,
            ((steps + 1) / 2) as u32,
        ),
        steps == 2 * threshold - 1 ==> phase_after(steps, threshold) == (
            StateType::LongBreak,
            threshold,
        ),
    decreases steps,
{
    if steps > 0 {
        lemma_phases_until_long_break(threshold, (steps - 1) as nat);
    }
}

/// Before the first long break there are exactly `threshold - 1` short
/// breaks: among the phases that come before phase `2 * threshold - 1`, the
/// first long break, none is a long break and `threshold - 1` are short
/// breaks.
pub proof fn lemma_short_breaks_before_long_break(threshold: u32)
    requires
        threshold >= 1,
    ensures
        phase_after((2 * threshold - 1) as nat, threshold).0 is LongBreak,
        long_breaks_among((2 * threshold - 1) as nat, threshold) == 0,
        short_breaks_among((2 * threshold - 1) as nat, threshold) == threshold - 1,
{
    lemma_phases_until_long_break(threshold, (2 * threshold - 1) as nat);
    lemma_breaks_among(threshold, (2 * threshold - 1) as nat);
}

/// Counts the breaks among the first `steps` phases, up to the first long
/// break.
proof fn lemma_breaks_among(threshold: u32, steps: nat)
    requires
        threshold >= 1,
        steps <= 2 * threshold - 1,
    ensures
        long_breaks_among(steps, threshold) == 0,
        short_breaks_among(steps, threshold) == steps / 2,
    decreases steps,
{
    if steps > 0 {
        lemma_breaks_among(threshold, (steps - 1) as nat);
        lemma_phases_until_long_break(threshold, (steps - 1) as nat);
    }
}

/// What the timer is doing: its phase, the work phases completed so far, and
/// the two flags that it shares with whoever listens for the user's keys.
pub struct State {
    pub state_type: StateType,
    pub cycles_completed: u32,
    pub pause: Arc<AtomicBool>,
    pub exit: Arc<AtomicBool>,
}

impl State {
    /// Reads the exit flag. Another thread may set it at any time, so
    /// nothing is known of the answer.
    pub fn exit_requested(&self) -> bool {
        self.exit.load(Ordering::Relaxed)
    }

    /// Reads the pause flag. Another thread may flip it at any time, so
    /// nothing is known of the answer.
    pub fn paused(&self) -> bool {
        self.pause.load(Ordering::Relaxed)
    }
}

/// A source of time. Readings are in milliseconds from a start that the
/// clock chooses.
pub trait Clock {
    /// The current reading.
    fn now(&self) -> u64;

    /// Waits for `millis` milliseconds.
    fn sleep(&mut self, millis: u64);
}

/// A display for the timer's state.
pub trait StatusSink {
    /// Shows `state`.
    fn update(&mut self, state: &State);
}

/// A signal for the end of a phase.
pub trait Notifier {
    /// Signals that the phase `completed` has run its full length.
    fn alert_state_change(&mut self, completed: StateType);
}

/// A request that the engine made to one of its collaborators, as the engine
/// itself writes it down.
pub enum Effect {
    /// The status sink was asked to show the state while it was in `phase`.
    Status { phase: StateType },
    /// The clock was asked to wait for `millis` milliseconds.
    Sleep { millis: u64 },
    /// The notifier was told that `phase` has run its full length.
    Alert { phase: StateType },
}

/// What the engine does next, given what the two flags say.
#[derive(Clone, Copy, Debug, PartialEq, Eq, Structural)]
pub enum Plan {
    /// Exit is asked for: do nothing more.
    Stop,
    /// No phase is running and the next would be a work phase that the count
    /// of completed ones has no room for: do nothing.
    Refuse,
    /// No phase is running: begin the next.
    Begin,
    /// A phase is running and paused: let a tick pass without counting it.
    Hold,
    /// A phase is running: let a tick pass and count it.
    Count,
}

/// What one step of the engine did.
#[derive(Clone, Copy, Debug, PartialEq, Eq, Structural)]
pub enum Step {
    /// Exit was asked for. Nothing was done and nothing changed.
    Exited,
    /// The count of completed work phases is at the largest value that it can
    /// hold, so no further work phase was begun. Nothing changed.
    Exhausted,
    /// A phase of `total_secs` seconds began.
    Started { total_secs: u64 },
    /// A tick passed while paused. No time counts as elapsed.
    Paused,
    /// A tick passed that took `slept_millis` by the clock; `advance` whole
    /// seconds have newly elapsed.
    Running { slept_millis: u64, advance: u64 },
    /// A tick passed that took `slept_millis` by the clock and brought the
    /// phase `phase` to its full length. The notifier has been alerted.
    Completed { slept_millis: u64, phase: StateType },
}

/// The timer: it runs the phases one after the other, each for the length
/// that the configuration gives it, and asks its clock, its status sink and
/// its notifier for everything that takes time or can be seen or heard.
pub struct Pomodoro<C, S, N> where C: Clock, S: StatusSink, N: Notifier {
    pub config: Config,
    pub state: State,
    pub clock: C,
    pub status: S,
    pub notifier: N,
    /// The wait of the phase that is running, if one is.
    pub wait: Option<Countdown>,
    /// The clock's reading up to which time is accounted for.
    pub mark: u64,
    /// The engine's own record of what it has asked of its collaborators so
    /// far, oldest first. The engine writes an entry beside each call that
    /// it makes; the record says what was asked, in which order, and says
    /// nothing of what a collaborator then did.
    pub effects: Ghost<Seq<Effect>>,
}

impl<C, S, N> Pomodoro<C, S, N> where C: Clock, S: StatusSink, N: Notifier {
    /// A running wait is well formed, and a running work phase can be
    /// counted when it completes.
    pub open spec fn wf(&self) -> bool {
        match self.wait {
            Some(wait) => wait.wf() && (self.state.state_type is Work
                ==> self.state.cycles_completed < u32::MAX),
            None => true,
        }
    }

    /// The length in seconds that the configuration gives the current phase.
    pub open spec fn spec_phase_secs(&self) -> u64 {
        match self.state.state_type {
            StateType::Work => self.config.work_duration,
            StateType::ShortBreak => self.config.short_break_duration,
            StateType::LongBreak => self.config.long_break_duration,
        }
    }

    /// The engine after it has moved on to the next phase. Only the phase
    /// and the count of completed work phases differ, and they depend on
    /// nothing but the phase, the count and the configured number of work
    /// phases before a long break.
    pub open spec fn after_next(&self) -> Self {
        let to = transition(
            self.state.state_type,
            self.state.cycles_completed,
            self.config.cycles_before_long_break,
        );
        Pomodoro {
            state: State { state_type: to.0, cycles_completed: to.1, ..self.state },
            ..*self
        }
    }

    /// What the engine does next when the flags read `exit` and `paused`.
    pub open spec fn spec_plan(&self, exit: bool, paused: bool) -> Plan {
        if exit {
            Plan::Stop
        } else if self.wait is None {
            if self.state.state_type is Work && self.state.cycles_completed == u32::MAX {
                Plan::Refuse
            } else {
                Plan::Begin
            }
        } else if paused {
            Plan::Hold
        } else {
            Plan::Count
        }
    }

    /// An engine in its first work phase, with no work phase completed, no
    /// phase running yet and no request made.
    pub fn new(
        config: Config,
        pause_flag: Arc<AtomicBool>,
        exit_flag: Arc<AtomicBool>,
        clock: C,
        status: S,
        notifier: N,
    ) -> (pomodoro: Self)
        ensures
            pomodoro.config == config,
            pomodoro.state.state_type == StateType::Work,
            pomodoro.state.cycles_completed == 0,
            pomodoro.state.pause == pause_flag,
            pomodoro.state.exit == exit_flag,
            pomodoro.clock == clock,
            pomodoro.status == status,
            pomodoro.notifier == notifier,
            pomodoro.wait is None,
            pomodoro.mark == 0,
            pomodoro.effects@ == Seq::<Effect>::empty(),
            pomodoro.wf(),
    {
        Pomodoro {
            config,
            state: State {
                cycles_completed: 0,
                state_type: StateType::Work,
                pause: pause_flag,
                exit: exit_flag,
            },
            clock,
            status,
            notifier,
            wait: None,
            mark: 0,
            effects: Ghost(Seq::empty()),
        }
    }

    /// The length in seconds that the configuration gives the current phase.
    #[verifier::when_used_as_spec(spec_phase_secs)]
    pub fn phase_secs(&self) -> (secs: u64)
        ensures
            secs == self.spec_phase_secs(),
    {
        match self.state.state_type {
            StateType::Work => self.config.work_duration,
            StateType::ShortBreak => self.config.short_break_duration,
            StateType::LongBreak => self.config.long_break_duration,
        }
    }

    /// Moves on to the next phase.
    pub fn next(&mut self)
        requires
            old(self).state.state_type is Work ==> old(self).state.cycles_completed < u32::MAX,
        ensures
            *final(self) == old(self).after_next(),
    {
        match self.state.state_type {
            StateType::Work => {
                self.state.cycles_completed = self.state.cycles_completed + 1;
                if self.state.cycles_completed == self.config.cycles_before_long_break {
                    self.state.state_type = StateType::LongBreak;
                } else {
                    self.state.state_type = StateType::ShortBreak;
                }
            },
            StateType::ShortBreak => {
                self.state.state_type = StateType::Work;
            },
            StateType::LongBreak => {
                self.state.state_type = StateType::Work;
            },
        }
    }

    /// What the engine does next when the flags read `exit` and `paused`.
    #[verifier::when_used_as_spec(spec_plan)]
    pub fn plan(&self, exit: bool, paused: bool) -> (plan: Plan)
        ensures
            plan == self.spec_plan(exit, paused),
    {
        if exit {
            Plan::Stop
        } else if self.wait.is_none() {
            if self.state.state_type == StateType::Work && self.state.cycles_completed
                == u32::MAX {
                Plan::Refuse
            } else {
                Plan::Begin
            }
        } else if paused {
            Plan::Hold
        } else {
            Plan::Count
        }
    }

    /// Asks the status sink to show the state.
    fn show_status(&mut self)
        ensures
            final(self).config == old(self).config,
            final(self).state == old(self).state,
            final(self).clock == old(self).clock,
            final(self).notifier == old(self).notifier,
            final(self).wait == old(self).wait,
            final(self).mark == old(self).mark,
            final(self).effects@ == old(self).effects@.push(
                Effect::Status { phase: old(self).state.state_type },
            ),
    {
        self.status.update(&self.state);
        proof {
            self.effects@ = self.effects@.push(Effect::Status { phase: self.state.state_type });
        }
    }

    /// Asks the clock to wait for one tick.
    fn rest(&mut self)
        ensures
            final(self).config == old(self).config,
            final(self).state == old(self).state,
            final(self).status == old(self).status,
            final(self).notifier == old(self).notifier,
            final(self).wait == old(self).wait,
            final(self).mark == old(self).mark,
            final(self).effects@ == old(self).effects@.push(Effect::Sleep { millis: TICK_MILLIS }),
    {
        self.clock.sleep(TICK_MILLIS);
        proof {
            self.effects@ = self.effects@.push(Effect::Sleep { millis: TICK_MILLIS });
        }
    }

    /// Tells the notifier that the current phase has run its full length.
    fn alert(&mut self)
        ensures
            final(self).config == old(self).config,
            final(self).state == old(self).state,
            final(self).clock == old(self).clock,
            final(self).status == old(self).status,
            final(self).wait == old(self).wait,
            final(self).mark == old(self).mark,
            final(self).effects@ == old(self).effects@.push(
                Effect::Alert { phase: old(self).state.state_type },
            ),
    {
        self.notifier.alert_state_change(self.state.state_type);
        proof {
            self.effects@ = self.effects@.push(Effect::Alert { phase: self.state.state_type });
        }
    }

    /// Starts the wait of the current phase at the clock's reading `reading`:
    /// a fresh wait of the phase's length, with time accounted for up to
    /// `reading`.
    pub fn begin(&mut self, reading: u64) -> (step: Step)
        requires
            old(self).state.state_type is Work ==> old(self).state.cycles_completed < u32::MAX,
        ensures
            step == (Step::Started { total_secs: old(self).phase_secs() }),
            final(self).wait == Some(Countdown::fresh(old(self).phase_secs())),
            final(self).mark == reading,
            final(self).config == old(self).config,
            final(self).state == old(self).state,
            final(self).clock == old(self).clock,
            final(self).status == old(self).status,
            final(self).notifier == old(self).notifier,
            final(self).effects@ == old(self).effects@,
            final(self).wf(),
    {
        let total_secs: u64 = self.phase_secs();
        self.wait = Some(Countdown::new(total_secs));
        self.mark = reading;
        Step::Started { total_secs }
    }

    /// Begins the current phase: the status sink shows the state, and the
    /// wait starts at the reading that the clock then gives.
    pub fn start_state(&mut self) -> (step: Step)
        requires
            old(self).state.state_type is Work ==> old(self).state.cycles_completed < u32::MAX,
        ensures
            step == (Step::Started { total_secs: old(self).phase_secs() }),
            final(self).wait == Some(Countdown::fresh(old(self).phase_secs())),
            final(self).config == old(self).config,
            final(self).state == old(self).state,
            final(self).clock == old(self).clock,
            final(self).notifier == old(self).notifier,
            final(self).effects@ == old(self).effects@.push(
                Effect::Status { phase: old(self).state.state_type },
            ),
            final(self).wf(),
    {
        self.show_status();
        let reading: u64 = self.clock.now();
        self.begin(reading)
    }

    /// Counts `slept_millis` of the running phase as elapsed. Where that
    /// brings the phase to its full length, the notifier is alerted, once,
    /// and no phase is running any more. The phase and the count of
    /// completed work phases stay as they are: moving on is the caller's.
    pub fn progress_duration(&mut self, slept_millis: u64) -> (step: Step)
        requires
            old(self).wf(),
            old(self).wait is Some,
        ensures
            final(self).wf(),
            final(self).config == old(self).config,
            final(self).state == old(self).state,
            final(self).clock == old(self).clock,
            final(self).status == old(self).status,
            final(self).mark == old(self).mark,
            match old(self).wait->0.progress(slept_millis) {
                Progress::Pending { advance } => {
                    &&& step == (Step::Running { slept_millis, advance })
                    &&& final(self).wait == Some(old(self).wait->0.counted(slept_millis))
                    &&& final(self).notifier == old(self).notifier
                    &&& final(self).effects@ == old(self).effects@
                },
                Progress::Complete => {
                    &&& step == (Step::Completed { slept_millis, phase: old(self).state.state_type })
                    &&& final(self).wait is None
                    &&& final(self).effects@ == old(self).effects@.push(
                        Effect::Alert { phase: old(self).state.state_type },
                    )
                },
            },
    {
        let mut wait: Countdown = match self.wait {
            Some(wait) => wait,
            None => unreached(),
        };
        match wait.record(slept_millis) {
            Progress::Pending { advance } => {
                self.wait = Some(wait);
                Step::Running { slept_millis, advance }
            },
            Progress::Complete => {
                let phase: StateType = self.state.state_type;
                self.alert();
                self.wait = None;
                Step::Completed { slept_millis, phase }
            },
        }
    }

    /// The time that has passed between the readings `mark` and `reading`:
    /// nothing where the clock has run back.
    pub open spec fn passed(mark: u64, reading: u64) -> u64 {
        if reading >= mark {
            (reading - mark) as u64
        } else {
            0
        }
    }

    /// Accounts for the tick that ended at the clock's reading `reading`.
    /// Time is then accounted for up to `reading`, whether the tick was
    /// paused or not. A paused tick adds nothing to the elapsed time, so a
    /// pause of any length is not counted when the timer runs again. A tick
    /// that was not paused counts the time that has passed since the reading
    /// up to which time was accounted for, as `progress_duration` does.
    pub fn account(&mut self, paused: bool, reading: u64) -> (step: Step)
        requires
            old(self).wf(),
            old(self).wait is Some,
        ensures
            final(self).wf(),
            final(self).mark == reading,
            final(self).config == old(self).config,
            final(self).state == old(self).state,
            final(self).clock == old(self).clock,
            final(self).status == old(self).status,
            paused ==> {
                &&& step == Step::Paused
                &&& final(self).wait == old(self).wait
                &&& final(self).notifier == old(self).notifier
                &&& final(self).effects@ == old(self).effects@
            },
            !paused ==> match old(self).wait->0.progress(Self::passed(old(self).mark, reading)) {
                Progress::Pending { advance } => {
                    &&& step == (Step::Running {
                        slept_millis: Self::passed(old(self).mark, reading),
                        advance,
                    })
                    &&& final(self).wait == Some(
                        old(self).wait->0.counted(Self::passed(old(self).mark, reading)),
                    )
                    &&& final(self).notifier == old(self).notifier
                    &&& final(self).effects@ == old(self).effects@
                },
                Progress::Complete => {
                    &&& step == (Step::Completed {
                        slept_millis: Self::passed(old(self).mark, reading),
                        phase: old(self).state.state_type,
                    })
                    &&& final(self).wait is None
                    &&& final(self).effects@ == old(self).effects@.push(
                        Effect::Alert { phase: old(self).state.state_type },
                    )
                },
            },
    {
        let slept_millis: u64 = reading.saturating_sub(self.mark);
        self.mark = reading;
        if paused {
            Step::Paused
        } else {
            self.progress_duration(slept_millis)
        }
    }

    /// How one step leads from `self` to `after` and reports `step`, when
    /// the flags read `exit` and `paused` and the clock, where it is read,
    /// reads `reading`. Exit is looked at first, before a phase begins and
    /// at every tick of one. A paused tick and a counted tick ask the same
    /// of the collaborators: the status sink shows the state, then the clock
    /// waits for one tick. The clock is read when a phase begins and at the
    /// end of every tick, and time is then accounted for up to that reading.
    /// Only a tick that is not paused adds to the elapsed time: the time
    /// that has passed since the reading before. The notifier is alerted
    /// only when that brings the phase to its full length, and the engine
    /// then moves on to the next phase.
    pub open spec fn stepped(
        &self,
        exit: bool,
        paused: bool,
        reading: u64,
        after: &Self,
        step: Step,
    ) -> bool {
        let shown = self.effects@.push(Effect::Status { phase: self.state.state_type });
        let slept = shown.push(Effect::Sleep { millis: TICK_MILLIS });
        let passed = Self::passed(self.mark, reading);
        &&& after.config == self.config
        &&& after.state.pause == self.state.pause
        &&& after.state.exit == self.state.exit
        &&& match self.spec_plan(exit, paused) {
            Plan::Stop => step == Step::Exited && *after == *self,
            Plan::Refuse => step == Step::Exhausted && *after == *self,
            Plan::Begin => {
                &&& step == (Step::Started { total_secs: self.phase_secs() })
                &&& after.wait == Some(Countdown::fresh(self.phase_secs()))
                &&& after.mark == reading
                &&& after.state == self.state
                &&& after.clock == self.clock
                &&& after.notifier == self.notifier
                &&& after.effects@ == shown
            },
            Plan::Hold => {
                &&& step == Step::Paused
                &&& after.wait == self.wait
                &&& after.mark == reading
                &&& after.state == self.state
                &&& after.notifier == self.notifier
                &&& after.effects@ == slept
            },
            Plan::Count => {
                &&& after.mark == reading
                &&& match self.wait->0.progress(passed) {
                    Progress::Pending { advance } => {
                        &&& step == (Step::Running { slept_millis: passed, advance })
                        &&& after.wait == Some(self.wait->0.counted(passed))
                        &&& after.state == self.state
                        &&& after.notifier == self.notifier
                        &&& after.effects@ == slept
                    },
                    Progress::Complete => {
                        &&& step == (Step::Completed {
                            slept_millis: passed,
                            phase: self.state.state_type,
                        })
                        &&& after.wait is None
                        &&& after.state == self.after_next().state
                        &&& after.effects@ == slept.push(
                            Effect::Alert { phase: self.state.state_type },
                        )
                    },
                }
            },
        }
    }

    /// Takes one step, given what the flags read. With `exit` set nothing is
    /// done, whether a phase is running or not: no collaborator is asked for
    /// anything, so the notifier is not alerted. A paused tick leaves the
    /// elapsed time as it is, and the status sink still shows the state.
    /// After a tick that completes the phase the engine moves on to the
    /// next. What the clock reads is not known beforehand: the step is the
    /// one that `stepped` describes for some reading.
    pub fn advance(&mut self, exit: bool, paused: bool) -> (step: Step)
        requires
            old(self).wf(),
        ensures
            final(self).wf(),
            exists|reading: u64| old(self).stepped(exit, paused, reading, final(self), step),
            exit ==> step == Step::Exited && *final(self) == *old(self),
            !exit && paused && old(self).wait is Some ==> {
                &&& step == Step::Paused
                &&& final(self).wait == old(self).wait
                &&& final(self).notifier == old(self).notifier
                &&& final(self).effects@ == old(self).effects@.push(
                    Effect::Status { phase: old(self).state.state_type },
                ).push(Effect::Sleep { millis: TICK_MILLIS })
            },
            !(step is Completed) ==> final(self).notifier == old(self).notifier
                && final(self).state == old(self).state,
    {
        match self.plan(exit, paused) {
            Plan::Stop => {
                assert(old(self).stepped(exit, paused, 0, self, Step::Exited));
                Step::Exited
            },
            Plan::Refuse => {
                assert(old(self).stepped(exit, paused, 0, self, Step::Exhausted));
                Step::Exhausted
            },
            Plan::Begin => {
                let step: Step = self.start_state();
                assert(old(self).stepped(exit, paused, self.mark, self, step));
                step
            },
            Plan::Hold | Plan::Count => {
                self.show_status();
                self.rest();
                let reading: u64 = self.clock.now();
                let step: Step = self.account(paused, reading);
                if let Step::Completed { .. } = step {
                    self.next();
                }
                assert(old(self).stepped(exit, paused, reading, self, step));
                step
            },
        }
    }

    /// Reads the two flags and takes one step. Running the timer is calling
    /// this until it reports `Exited` or `Exhausted`.
    pub fn step(&mut self) -> (step: Step)
        requires
            old(self).wf(),
        ensures
            final(self).wf(),
            exists|exit: bool, paused: bool, reading: u64|
                old(self).stepped(exit, paused, reading, final(self), step),
            step is Exited || step is Exhausted ==> *final(self) == *old(self),
            !(step is Completed) ==> final(self).notifier == old(self).notifier
                && final(self).state == old(self).state,
            step is Paused ==> final(self).wait == old(self).wait,
    {
        let exit: bool = self.state.exit_requested();
        let paused: bool = self.state.paused();
        self.advance(exit, paused)
    }
}

/// A pause is not counted when the timer runs again: where a paused tick
/// that ends at the reading `held_until` is followed by a counted tick that
/// ends at the reading `reading`, the counted tick adds the time between
/// these two readings and no more, however long the timer was paused before.
pub proof fn lemma_pause_is_not_counted<C, S, N>(
    before: Pomodoro<C, S, N>,
    held: Pomodoro<C, S, N>,
    after: Pomodoro<C, S, N>,
    held_until: u64,
    reading: u64,
    first: Step,
    second: Step,
) where C: Clock, S: StatusSink, N: Notifier
    requires
        before.wait is Some,
        before.stepped(false, true, held_until, &held, first),
        held.stepped(false, false, reading, &after, second),
    ensures
        first == Step::Paused,
        held.wait == before.wait,
        held.notifier == before.notifier,
        match before.wait->0.progress(Pomodoro::<C, S, N>::passed(held_until, reading)) {
            Progress::Pending { advance } => {
                &&& second == (Step::Running {
                    slept_millis: Pomodoro::<C, S, N>::passed(held_until, reading),
                    advance,
                })
                &&& after.wait == Some(
                    before.wait->0.counted(Pomodoro::<C, S, N>::passed(held_until, reading)),
                )
            },
            Progress::Complete => second == (Step::Completed {
                slept_millis: Pomodoro::<C, S, N>::passed(held_until, reading),
                phase: before.state.state_type,
            }),
        },
{
}

/// Moving on is a function of the phase, the count of completed work phases
/// and the configured number of work phases before a long break: two
/// engines that agree on these three agree on the phase and the count that
/// follow, whatever else they hold.
pub proof fn lemma_next_depends_on_three<C1, S1, N1, C2, S2, N2>(
    a: Pomodoro<C1, S1, N1>,
    b: Pomodoro<C2, S2, N2>,
) where C1: Clock, S1: StatusSink, N1: Notifier, C2: Clock, S2: StatusSink, N2: Notifier
    requires
        a.state.state_type == b.state.state_type,
        a.state.cycles_completed == b.state.cycles_completed,
        a.config.cycles_before_long_break == b.config.cycles_before_long_break,
    ensures
        a.after_next().state.state_type == b.after_next().state.state_type,
        a.after_next().state.cycles_completed == b.after_next().state.cycles_completed,
        a.after_next().state.state_type == transition(
            a.state.state_type,
            a.state.cycles_completed,
            a.config.cycles_before_long_break,
        ).0,
{
}

} // verus!
