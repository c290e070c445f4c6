use pomodorro_rust::conf::Config;
use pomodorro_rust::countdown::TICK_MILLIS;
use pomodorro_rust::fakes::{FakeClock, FakeNotifier, FakeStatus};
use pomodorro_rust::pomodoro::{Clock, Plan, Pomodoro, State, StateType, StatusSink, Step};
use std::sync::atomic::{AtomicBool, Ordering};
use std::sync::Arc;

fn base_config() -> Config {
    Config {
        work_duration: 5,
        short_break_duration: 2,
        long_break_duration: 3,
        cycles_before_long_break: 2,
    }
}

fn new_pomodoro_with_fakes() -> (
    Pomodoro<FakeClock, FakeStatus, FakeNotifier>,
    Arc<AtomicBool>,
    Arc<AtomicBool>,
) {
    let pause = Arc::new(AtomicBool::new(false));
    let exit = Arc::new(AtomicBool::new(false));
    let clock = FakeClock::new(0);
    let status = FakeStatus::new();
    let notifier = FakeNotifier::new();

    let pomo = Pomodoro::new(base_config(), pause.clone(), exit.clone(), clock, status, notifier);
    (pomo, pause, exit)
}

/// Steps until the running phase ends or exit is seen; gives the steps taken.
fn run_phase(pomo: &mut Pomodoro<FakeClock, FakeStatus, FakeNotifier>) -> Vec<Step> {
    let mut steps = Vec::new();
    loop {
        let step = pomo.step();
        steps.push(step);
        match step {
            Step::Completed { .. } | Step::Exited | Step::Exhausted => return steps,
            _ => assert!(steps.len() < 100_000),
        }
    }
}

#[test]
fn test_next_from_work_to_short_break() {
    let (mut pomo, _, _) = new_pomodoro_with_fakes();

    assert!(matches!(pomo.state.state_type, StateType::Work));
    pomo.next();
    assert!(matches!(pomo.state.state_type, StateType::ShortBreak));
    assert_eq!(pomo.state.cycles_completed, 1);
}

#[test]
fn test_next_to_long_break_after_n_cycles() {
    let (mut pomo, _, _) = new_pomodoro_with_fakes();

    // first work -> short break
    pomo.next();
    // short break -> work
    pomo.next();
    // second work -> long break (cycles_before_long_break = 2)
    pomo.next();

    assert!(matches!(pomo.state.state_type, StateType::LongBreak));
    assert_eq!(pomo.state.cycles_completed, 2);
}

#[test]
fn test_next_from_break_back_to_work() {
    let (mut pomo, _, _) = new_pomodoro_with_fakes();

    // go to short break
    pomo.next();
    assert!(matches!(pomo.state.state_type, StateType::ShortBreak));

    // from short break to work
    pomo.next();
    assert!(matches!(pomo.state.state_type, StateType::Work));
}

#[test]
fn three_transitions_with_a_threshold_of_two() {
    let (mut pomo, _, _) = new_pomodoro_with_fakes();
    let mut phases = Vec::new();
    for _ in 0..3 {
        pomo.next();
        phases.push(pomo.state.state_type);
    }
    assert_eq!(phases, vec![StateType::ShortBreak, StateType::Work, StateType::LongBreak]);
    assert_eq!(pomo.state.cycles_completed, 2);
}

#[test]
fn phases_alternate_until_the_first_long_break() {
    for threshold in 1..=6u32 {
        let (mut pomo, _, _) = new_pomodoro_with_fakes();
        pomo.config.cycles_before_long_break = threshold;
        let mut phases = vec![pomo.state.state_type];
        while pomo.state.state_type != StateType::LongBreak {
            pomo.next();
            phases.push(pomo.state.state_type);
        }
        let mut expected = Vec::new();
        for _ in 1..threshold {
            expected.push(StateType::Work);
            expected.push(StateType::ShortBreak);
        }
        expected.push(StateType::Work);
        expected.push(StateType::LongBreak);
        assert_eq!(phases, expected);
        let short_breaks = phases.iter().filter(|p| **p == StateType::ShortBreak).count();
        assert_eq!(short_breaks as u32, threshold - 1);
        assert_eq!(pomo.state.cycles_completed, threshold);
    }
}

#[test]
fn the_count_is_never_taken_back_so_one_long_break_is_all() {
    let (mut pomo, _, _) = new_pomodoro_with_fakes();
    let mut long_breaks = 0;
    for _ in 0..40 {
        pomo.next();
        if pomo.state.state_type == StateType::LongBreak {
            long_breaks += 1;
        }
    }
    assert_eq!(long_breaks, 1);
    assert_eq!(pomo.state.cycles_completed, 20);
    assert_eq!(pomo.state.state_type, StateType::Work);
}

#[test]
fn next_depends_on_phase_count_and_threshold_alone() {
    let (mut a, _, _) = new_pomodoro_with_fakes();
    let (mut b, pause, _) = new_pomodoro_with_fakes();
    pause.store(true, Ordering::SeqCst);
    b.config.work_duration = 77;
    b.clock.sleep(5);
    b.start_state();
    for _ in 0..7 {
        a.next();
        b.next();
        assert_eq!(a.state.state_type, b.state.state_type);
        assert_eq!(a.state.cycles_completed, b.state.cycles_completed);
    }
}

#[test]
fn a_new_engine_waits_in_the_first_work_phase() {
    let (pomo, pause, exit) = new_pomodoro_with_fakes();
    assert_eq!(pomo.config, base_config());
    assert_eq!(pomo.state.state_type, StateType::Work);
    assert_eq!(pomo.state.cycles_completed, 0);
    assert!(Arc::ptr_eq(&pomo.state.pause, &pause));
    assert!(Arc::ptr_eq(&pomo.state.exit, &exit));
    assert!(pomo.wait.is_none());
    assert!(!pomo.state.paused());
    assert!(!pomo.state.exit_requested());
    assert_eq!(pomo.phase_secs(), 5);
    assert!(pomo.status.updates.is_empty());
    assert!(pomo.notifier.alerts.is_empty());
    assert!(pomo.clock.sleeps.is_empty());
}

#[test]
fn phase_secs_follows_the_phase() {
    let (mut pomo, _, _) = new_pomodoro_with_fakes();
    assert_eq!(pomo.phase_secs(), 5);
    pomo.next();
    assert_eq!(pomo.phase_secs(), 2);
    pomo.next();
    pomo.next();
    assert_eq!(pomo.phase_secs(), 3);
}

#[test]
fn labels() {
    assert_eq!(StateType::Work.label(), "Work in progress");
    assert_eq!(StateType::ShortBreak.label(), "Short Break");
    assert_eq!(StateType::LongBreak.label(), "Long Break");
}

#[test]
fn a_phase_of_five_seconds_takes_fifty_ticks_and_one_alert() {
    let (mut pomo, _, _) = new_pomodoro_with_fakes();
    let steps = run_phase(&mut pomo);

    assert_eq!(steps.len(), 51);
    assert_eq!(steps[0], Step::Started { total_secs: 5 });
    for (i, step) in steps.iter().enumerate().skip(1).take(49) {
        let advance = if i % 10 == 0 { 1 } else { 0 };
        assert_eq!(*step, Step::Running { slept_millis: 100, advance });
    }
    assert_eq!(steps[50], Step::Completed { slept_millis: 100, phase: StateType::Work });

    assert_eq!(pomo.notifier.alerts, vec![StateType::Work]);
    assert_eq!(pomo.clock.now(), 5000);
    assert_eq!(pomo.clock.sleeps, vec![TICK_MILLIS; 50]);
    assert_eq!(pomo.clock.sleeps.iter().sum::<u64>(), 5000);
    assert_eq!(pomo.status.updates, vec![StateType::Work; 51]);
    assert_eq!(pomo.state.state_type, StateType::ShortBreak);
    assert_eq!(pomo.state.cycles_completed, 1);
    assert!(pomo.wait.is_none());
}

#[test]
fn the_phases_run_one_after_the_other() {
    let (mut pomo, _, _) = new_pomodoro_with_fakes();
    let mut lengths = Vec::new();
    for _ in 0..4 {
        lengths.push(run_phase(&mut pomo).len());
    }
    assert_eq!(lengths, vec![51, 21, 51, 31]);
    assert_eq!(
        pomo.notifier.alerts,
        vec![StateType::Work, StateType::ShortBreak, StateType::Work, StateType::LongBreak]
    );
    assert_eq!(pomo.clock.now(), (5 + 2 + 5 + 3) * 1000);
    assert_eq!(pomo.state.state_type, StateType::Work);
    assert_eq!(pomo.state.cycles_completed, 2);
}

#[test]
fn a_phase_of_no_length_still_takes_one_tick() {
    let (mut pomo, _, _) = new_pomodoro_with_fakes();
    pomo.config.work_duration = 0;
    let steps = run_phase(&mut pomo);
    assert_eq!(
        steps,
        vec![
            Step::Started { total_secs: 0 },
            Step::Completed { slept_millis: 100, phase: StateType::Work },
        ]
    );
    assert_eq!(pomo.notifier.alerts, vec![StateType::Work]);
    assert_eq!(pomo.clock.sleeps, vec![100]);
}

#[test]
fn exit_before_a_phase_does_nothing() {
    let (mut pomo, _, exit) = new_pomodoro_with_fakes();
    exit.store(true, Ordering::SeqCst);
    assert!(pomo.state.exit_requested());

    assert_eq!(pomo.step(), Step::Exited);
    assert_eq!(pomo.step(), Step::Exited);
    assert!(pomo.wait.is_none());
    assert!(pomo.notifier.alerts.is_empty());
    assert!(pomo.status.updates.is_empty());
    assert!(pomo.clock.sleeps.is_empty());
    assert_eq!(pomo.state.state_type, StateType::Work);
    assert_eq!(pomo.state.cycles_completed, 0);
}

#[test]
fn exit_during_a_phase_ends_it_without_an_alert() {
    let (mut pomo, _, exit) = new_pomodoro_with_fakes();
    for _ in 0..20 {
        pomo.step();
    }
    let wait = pomo.wait;
    exit.store(true, Ordering::SeqCst);

    assert_eq!(run_phase(&mut pomo), vec![Step::Exited]);
    assert!(pomo.notifier.alerts.is_empty());
    assert_eq!(pomo.clock.sleeps.len(), 19);
    assert_eq!(pomo.status.updates.len(), 20);
    assert_eq!(pomo.wait, wait);
    assert_eq!(pomo.state.state_type, StateType::Work);
    assert_eq!(pomo.state.cycles_completed, 0);
}

#[test]
fn exit_wins_over_pause_and_over_a_phase_that_is_about_to_end() {
    let (mut pomo, pause, exit) = new_pomodoro_with_fakes();
    for _ in 0..50 {
        pomo.step();
    }
    assert_eq!(pomo.clock.now(), 4900);
    pause.store(true, Ordering::SeqCst);
    exit.store(true, Ordering::SeqCst);
    assert_eq!(pomo.plan(true, true), Plan::Stop);
    assert_eq!(pomo.step(), Step::Exited);
    assert!(pomo.notifier.alerts.is_empty());
}

#[test]
fn a_paused_tick_counts_no_time_and_still_shows_the_state() {
    let (mut pomo, pause, _) = new_pomodoro_with_fakes();
    for _ in 0..11 {
        pomo.step();
    }
    let wait = pomo.wait.expect("a phase is running");
    assert_eq!(wait.counted_millis, 1000);

    pause.store(true, Ordering::SeqCst);
    assert!(pomo.state.paused());
    for _ in 0..300 {
        assert_eq!(pomo.step(), Step::Paused);
    }
    assert_eq!(pomo.wait, Some(wait));
    assert_eq!(pomo.status.updates.len(), 1 + 10 + 300);
    assert_eq!(pomo.clock.sleeps.len(), 10 + 300);
    assert_eq!(pomo.clock.now(), 31_000);
    assert!(pomo.notifier.alerts.is_empty());

    pause.store(false, Ordering::SeqCst);
    let rest = run_phase(&mut pomo);
    assert_eq!(rest.len(), 40);
    assert_eq!(rest[0], Step::Running { slept_millis: 100, advance: 0 });
    assert_eq!(pomo.notifier.alerts, vec![StateType::Work]);
    assert_eq!(pomo.clock.now(), 35_000);
}

#[test]
fn pause_does_not_hold_up_the_start_of_a_phase() {
    let (mut pomo, pause, _) = new_pomodoro_with_fakes();
    pause.store(true, Ordering::SeqCst);
    assert_eq!(pomo.plan(false, true), Plan::Begin);
    assert_eq!(pomo.step(), Step::Started { total_secs: 5 });
    assert_eq!(pomo.plan(false, true), Plan::Hold);
    assert_eq!(pomo.plan(false, false), Plan::Count);
    assert_eq!(pomo.step(), Step::Paused);
}

#[test]
fn advance_goes_by_the_flags_it_is_given() {
    let (mut pomo, _, _) = new_pomodoro_with_fakes();
    assert_eq!(pomo.advance(false, false), Step::Started { total_secs: 5 });
    assert_eq!(pomo.advance(false, true), Step::Paused);
    assert_eq!(pomo.advance(false, false), Step::Running { slept_millis: 100, advance: 0 });
    assert_eq!(pomo.advance(true, false), Step::Exited);
    assert_eq!(pomo.advance(true, true), Step::Exited);
    assert_eq!(pomo.clock.sleeps, vec![100, 100]);
}

#[test]
fn progress_duration_counts_what_it_is_told() {
    let (mut pomo, _, _) = new_pomodoro_with_fakes();
    pomo.start_state();
    assert_eq!(pomo.progress_duration(999), Step::Running { slept_millis: 999, advance: 0 });
    assert_eq!(pomo.progress_duration(1), Step::Running { slept_millis: 1, advance: 1 });
    assert_eq!(pomo.progress_duration(2500), Step::Running { slept_millis: 2500, advance: 2 });
    assert!(pomo.notifier.alerts.is_empty());
    assert_eq!(
        pomo.progress_duration(1500),
        Step::Completed { slept_millis: 1500, phase: StateType::Work }
    );
    assert_eq!(pomo.notifier.alerts, vec![StateType::Work]);
    assert_eq!(pomo.state.state_type, StateType::Work);
    assert_eq!(pomo.state.cycles_completed, 0);
    assert!(pomo.wait.is_none());
    assert!(pomo.clock.sleeps.is_empty());
}

#[test]
fn begin_starts_the_wait_at_the_reading() {
    let (mut pomo, _, _) = new_pomodoro_with_fakes();
    assert_eq!(pomo.begin(7_000), Step::Started { total_secs: 5 });
    assert_eq!(pomo.mark, 7_000);
    let wait = pomo.wait.expect("a phase is running");
    assert_eq!((wait.total_secs, wait.counted_millis, wait.shown_secs), (5, 0, 0));
    assert!(pomo.status.updates.is_empty());
}

#[test]
fn account_counts_from_the_last_reading_and_a_pause_counts_nothing() {
    let (mut pomo, _, _) = new_pomodoro_with_fakes();
    pomo.begin(1_000);
    assert_eq!(pomo.account(false, 1_100), Step::Running { slept_millis: 100, advance: 0 });
    assert_eq!(pomo.mark, 1_100);

    for n in 1..=1_000u64 {
        assert_eq!(pomo.account(true, 1_100 + 100 * n), Step::Paused);
        assert_eq!(pomo.mark, 1_100 + 100 * n);
        assert_eq!(pomo.wait.expect("a phase is running").counted_millis, 100);
    }

    assert_eq!(pomo.account(false, 101_200), Step::Running { slept_millis: 100, advance: 0 });
    assert_eq!(pomo.wait.expect("a phase is running").counted_millis, 200);
    assert_eq!(pomo.account(false, 100_000), Step::Running { slept_millis: 0, advance: 0 });
    assert_eq!(pomo.mark, 100_000);
    assert_eq!(
        pomo.account(false, 104_800),
        Step::Completed { slept_millis: 4_800, phase: StateType::Work }
    );
    assert_eq!(pomo.notifier.alerts, vec![StateType::Work]);
    assert_eq!(pomo.state.state_type, StateType::Work);
    assert!(pomo.wait.is_none());
}

#[test]
fn a_pause_of_any_length_leaves_fifty_counted_ticks() {
    for (before, held) in [(0usize, 1usize), (1, 7), (20, 300), (49, 1_000)] {
        let (mut pomo, pause, _) = new_pomodoro_with_fakes();
        assert_eq!(pomo.step(), Step::Started { total_secs: 5 });
        for _ in 0..before {
            assert!(matches!(pomo.step(), Step::Running { .. }));
        }
        pause.store(true, Ordering::SeqCst);
        for _ in 0..held {
            assert_eq!(pomo.step(), Step::Paused);
        }
        pause.store(false, Ordering::SeqCst);
        let rest = run_phase(&mut pomo);
        assert_eq!(before + rest.len(), 50);
        assert_eq!(pomo.clock.sleeps.len(), 50 + held);
        assert_eq!(pomo.notifier.alerts, vec![StateType::Work]);
        assert_eq!(pomo.state.state_type, StateType::ShortBreak);
    }
}

#[test]
fn the_count_of_work_phases_has_a_last_value() {
    let (mut pomo, _, _) = new_pomodoro_with_fakes();
    pomo.state.cycles_completed = u32::MAX;
    assert_eq!(pomo.plan(false, false), Plan::Refuse);
    assert_eq!(pomo.step(), Step::Exhausted);
    assert!(pomo.wait.is_none());
    assert!(pomo.status.updates.is_empty());

    pomo.state.state_type = StateType::ShortBreak;
    assert_eq!(pomo.step(), Step::Started { total_secs: 2 });
    let steps = run_phase(&mut pomo);
    assert_eq!(steps.len(), 20);
    assert_eq!(pomo.state.state_type, StateType::Work);
    assert_eq!(pomo.step(), Step::Exhausted);
}

struct JumpyClock {
    readings: Vec<u64>,
}

impl Clock for JumpyClock {
    fn now(&self) -> u64 {
        *self.readings.last().unwrap()
    }

    fn sleep(&mut self, _millis: u64) {
        self.readings.pop();
    }
}

struct Blind;

impl StatusSink for Blind {
    fn update(&mut self, _state: &State) {}
}

#[test]
fn time_is_taken_from_the_clock_and_a_clock_that_runs_back_counts_nothing() {
    let clock = JumpyClock { readings: vec![9_000, 4_000, 4_250, 1_700, 1_000] };
    let mut pomo = Pomodoro::new(
        base_config(),
        Arc::new(AtomicBool::new(false)),
        Arc::new(AtomicBool::new(false)),
        clock,
        Blind,
        FakeNotifier::new(),
    );
    assert_eq!(pomo.step(), Step::Started { total_secs: 5 });
    assert_eq!(pomo.mark, 1_000);
    assert_eq!(pomo.step(), Step::Running { slept_millis: 700, advance: 0 });
    assert_eq!(pomo.step(), Step::Running { slept_millis: 2_550, advance: 3 });
    assert_eq!(pomo.step(), Step::Running { slept_millis: 0, advance: 0 });
    assert_eq!(pomo.mark, 4_000);
    assert_eq!(pomo.step(), Step::Completed { slept_millis: 5_000, phase: StateType::Work });
    assert_eq!(pomo.notifier.alerts, vec![StateType::Work]);
}
