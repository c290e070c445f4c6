use crate::pomodoro::StateType;
use vstd::prelude::*;

verus! {

/// What a key asks of the timer.
#[derive(Clone, Copy, Debug, PartialEq, Eq, Structural)]
pub enum KeyAction {
    /// Ask the timer to exit.
    Quit,
    /// Pause the timer, or resume it.
    TogglePause,
    /// The key means nothing to the timer.
    Ignore,
}

/// What the key that types `key` asks for: `q` quits and `p` pauses or
/// resumes, in either case of the letter; every other key is ignored.
pub open spec fn key_action_spec(key: char) -> KeyAction {
    if key == 'q' || key == 'Q' {
        KeyAction::Quit
    } else if key == 'p' || key == 'P' {
        KeyAction::TogglePause
    } else {
        KeyAction::Ignore
    }
}

/// What the key that types `key` asks for.
#[verifier::when_used_as_spec(key_action_spec)]
pub fn key_action(key: char) -> (action: KeyAction)
    ensures
        action == key_action_spec(key),
{
    if key == 'q' || key == 'Q' {
        KeyAction::Quit
    } else if key == 'p' || key == 'P' {
        KeyAction::TogglePause
    } else {
        KeyAction::Ignore
    }
}

/// Whether the timer is paused after the key that asks for `action`, where
/// it was paused or not as `paused` says before: the key that toggles the
/// pause turns it round, and no other key touches it.
pub open spec fn pause_after_spec(paused: bool, action: KeyAction) -> bool {
    if action == KeyAction::TogglePause {
        !paused
    } else {
        paused
    }
}

/// Whether the timer is paused after the key that asks for `action`.
#[verifier::when_used_as_spec(pause_after_spec)]
pub fn pause_after(paused: bool, action: KeyAction) -> (now: bool)
    ensures
        now == pause_after_spec(paused, action),
{
    match action {
        KeyAction::TogglePause => !paused,
        KeyAction::Quit => paused,
        KeyAction::Ignore => paused,
    }
}

/// The first line of the status region: the phase and how to quit.
pub open spec fn status_line_spec(phase: StateType) -> Seq<char> {
    "Pomodoro Timer: "@ + phase.label_spec() + ". Press 'q' to exit"@
}

/// The second line of the status region: how to pause, or how to resume
/// when paused.
pub open spec fn pause_line_spec(paused: bool) -> Seq<char> {
    if paused {
        "(Paused) Press 'p' to resume"@
    } else {
        "Press 'p' to pause"@
    }
}

/// The first line of the status region for a timer in `phase`.
pub fn status_line(phase: StateType) -> (line: String)
    ensures
        line@ == status_line_spec(phase),
{
    let label: String = phase.label();
    String::from_str("Pomodoro Timer: ").concat(label.as_str()).concat(". Press 'q' to exit")
}

/// The second line of the status region.
pub fn pause_line(paused: bool) -> (line: String)
    ensures
        line@ == pause_line_spec(paused),
{
    if paused {
        String::from_str("(Paused) Press 'p' to resume")
    } else {
        String::from_str("Press 'p' to pause")
    }
}

} // verus!
