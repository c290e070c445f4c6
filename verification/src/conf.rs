use crate::decimal::{parse_u64, parse_u64_spec};
use vstd::prelude::*;

verus! {

/// Seconds in one minute.
pub const SECS_PER_MINUTE: u64 = 60;

/// The largest number of minutes that a duration can be given: the largest
/// whose length in seconds fits in 64 bits.
pub const MAX_MINUTES: u64 = 307_445_734_561_825_860;

/// The largest count of cycles that can be given.
pub const MAX_CYCLES: u64 = 0xFFFF_FFFF;

/// The usage text, returned in place of a configuration when help is asked for.
pub const HELP: &'static str = "Usage: pomodorro-rust [options]:
    -h, --help                  Show this help message,
    -w, --work <minutes>        Set work duration (default: 25),
    -s, --short-break <minutes> Set short break duration (default: 5),
    -l, --long-break <minutes>  Set long break duration (default: 15),
    -c, --cycles <number>       Set number of cycles before long break (default 4)
        ";

/// The lengths of the three phases, in whole seconds, and the number of work
/// phases that lead to a long break.
#[derive(Clone, Copy, Debug, PartialEq, Eq, Structural)]
pub struct Config {
    pub work_duration: u64,
    pub short_break_duration: u64,
    pub long_break_duration: u64,
    pub cycles_before_long_break: u32,
}

/// One option of the command line. A duration is held in minutes, as given.
/// `parse_param` gives only durations from one minute to `MAX_MINUTES` and
/// counts of at least one.
#[derive(Clone, Copy, Debug, PartialEq, Eq, Structural)]
pub enum ConfigParam {
    WorkDuration(u64),
    ShortBreakDuration(u64),
    LongBreakDuration(u64),
    CyclesBeforeLongBreak(u32),
    Help,
}

/// The message for an option that is the last argument and needs a value.
pub open spec fn expected_value_message(key: Seq<char>) -> Seq<char> {
    "Expected value for parameter: "@ + key
}

/// The message for a value that is not an unsigned decimal number, or is one
/// that the option cannot take.
pub open spec fn failed_parse_message(value: Seq<char>) -> Seq<char> {
    "Failed to parse value: "@ + value
}

/// The message for an option that is not known.
pub open spec fn unknown_parameter_message(key: Seq<char>) -> Seq<char> {
    "Unknown parameter: "@ + key
}

/// The number that `value` holds, or the message that says why it holds none.
/// A message that comes in goes out unchanged.
pub open spec fn parse_string_spec(value: Result<Seq<char>, Seq<char>>) -> Result<
    u64,
    Seq<char>,
> {
    match value {
        Err(message) => Err(message),
        Ok(text) => match parse_u64_spec(text) {
            Some(number) => Ok(number),
            None => Err(failed_parse_message(text)),
        },
    }
}

/// The number that the option `key` is given in the argument after it, if
/// that is a number from 1 to `most`. An option that is the last argument
/// has no value; a value that is no number, is zero or is above `most`
/// cannot be taken. Each has its message.
pub open spec fn parse_amount_spec(key: Seq<char>, value: Option<Seq<char>>, most: u64) -> Result<
    u64,
    Seq<char>,
> {
    match value {
        None => Err(expected_value_message(key)),
        Some(text) => match parse_string_spec(Ok(text)) {
            Ok(number) => if 1 <= number <= most {
                Ok(number)
            } else {
                Err(failed_parse_message(text))
            },
            Err(message) => Err(message),
        },
    }
}

/// The option that `key` and the argument after it stand for. Help needs no
/// value. A duration is a number of minutes from 1 to `MAX_MINUTES`, and a
/// count of cycles a number from 1 to the largest that 32 bits hold.
pub open spec fn parse_param_spec(key: Seq<char>, value: Option<Seq<char>>) -> Result<
    ConfigParam,
    Seq<char>,
> {
    if key == "--help"@ || key == "-h"@ {
        Ok(ConfigParam::Help)
    } else if key == "--work"@ || key == "-w"@ {
        match parse_amount_spec(key, value, MAX_MINUTES) {
            Ok(minutes) => Ok(ConfigParam::WorkDuration(minutes)),
            Err(message) => Err(message),
        }
    } else if key == "--short-break"@ || key == "-s"@ {
        match parse_amount_spec(key, value, MAX_MINUTES) {
            Ok(minutes) => Ok(ConfigParam::ShortBreakDuration(minutes)),
            Err(message) => Err(message),
        }
    } else if key == "--long-break"@ || key == "-l"@ {
        match parse_amount_spec(key, value, MAX_MINUTES) {
            Ok(minutes) => Ok(ConfigParam::LongBreakDuration(minutes)),
            Err(message) => Err(message),
        }
    } else if key == "--cycles"@ || key == "-c"@ {
        match parse_amount_spec(key, value, MAX_CYCLES) {
            Ok(count) => Ok(ConfigParam::CyclesBeforeLongBreak(count as u32)),
            Err(message) => Err(message),
        }
    } else {
        Err(unknown_parameter_message(key))
    }
}

/// The argument after position `at`, if there is one.
pub open spec fn value_after(args: Seq<Seq<char>>, at: int) -> Option<Seq<char>> {
    if at + 1 < args.len() {
        Some(args[at + 1])
    } else {
        None
    }
}

/// Whether `a` and `b` hold the same characters.
fn same_text(a: &str, b: &str) -> (same: bool)
    ensures
        same == (a@ == b@),
{
    let n: usize = a.unicode_len();
    if b.unicode_len() != n {
        return false;
    }
    let mut i: usize = 0;
    while i < n
        invariant
            i <= n,
            n == a@.len(),
            n == b@.len(),
            forall|j: int| 0 <= j < i ==> a@[j] == b@[j],
        decreases n - i,
    {
        if a.get_char(i) != b.get_char(i) {
            return false;
        }
        i = i + 1;
    }
    assert(a@ =~= b@);
    true
}

impl ConfigParam {
    /// A duration is of 1 to `MAX_MINUTES` minutes, and a count of cycles is
    /// at least 1.
    pub open spec fn valid(&self) -> bool {
        match *self {
            ConfigParam::WorkDuration(minutes) => 1 <= minutes <= MAX_MINUTES,
            ConfigParam::ShortBreakDuration(minutes) => 1 <= minutes <= MAX_MINUTES,
            ConfigParam::LongBreakDuration(minutes) => 1 <= minutes <= MAX_MINUTES,
            ConfigParam::CyclesBeforeLongBreak(count) => count >= 1,
            ConfigParam::Help => true,
        }
    }
}

impl Config {
    /// Every phase has a length, and at least one work phase comes before a
    /// long break.
    pub open spec fn valid(&self) -> bool {
        &&& self.work_duration > 0
        &&& self.short_break_duration > 0
        &&& self.long_break_duration > 0
        &&& self.cycles_before_long_break >= 1
    }

    /// 25 minutes of work, breaks of 5 and 15 minutes, a long break after
    /// every 4 work phases.
    pub open spec fn defaults() -> Config {
        Config {
            work_duration: 1500,
            short_break_duration: 300,
            long_break_duration: 900,
            cycles_before_long_break: 4,
        }
    }

    /// The configuration with the option `param` applied. A duration given
    /// in minutes is held in seconds.
    pub open spec fn with_param(&self, param: ConfigParam) -> Config
        recommends
            param.valid(),
    {
        match param {
            ConfigParam::WorkDuration(minutes) => Config {
                work_duration: (minutes * SECS_PER_MINUTE) as u64,
                ..*self
            },
            ConfigParam::ShortBreakDuration(minutes) => Config {
                short_break_duration: (minutes * SECS_PER_MINUTE) as u64,
                ..*self
            },
            ConfigParam::LongBreakDuration(minutes) => Config {
                long_break_duration: (minutes * SECS_PER_MINUTE) as u64,
                ..*self
            },
            ConfigParam::CyclesBeforeLongBreak(count) => Config {
                cycles_before_long_break: count,
                ..*self
            },
            ConfigParam::Help => *self,
        }
    }

    /// What reading the arguments from position `from` on makes of `config`:
    /// they are taken in pairs of an option and its value, each option is
    /// applied in turn, the first message ends the reading, and so does a
    /// request for help, with the usage text as its message.
    pub open spec fn folded(args: Seq<Seq<char>>, from: int, config: Config) -> Result<
        Config,
        Seq<char>,
    >
        decreases args.len() - from,
    {
        if from >= args.len() {
            Ok(config)
        } else {
            match parse_param_spec(args[from], value_after(args, from)) {
                Err(message) => Err(message),
                Ok(ConfigParam::Help) => Err(HELP@),
                Ok(param) => Self::folded(args, from + 2, config.with_param(param)),
            }
        }
    }

    /// The configuration that the command line `args` asks for, or the
    /// message that it comes to. The first argument is the program's name and
    /// is not read.
    pub open spec fn build_spec(args: Seq<Seq<char>>) -> Result<Config, Seq<char>> {
        Self::folded(args, 1, Self::defaults())
    }

    /// The configuration that is used where the command line says nothing.
    pub fn new_default() -> (config: Self)
        ensures
            config == Self::defaults(),
            config.valid(),
    {
        Config {
            work_duration: 25 * 60,
            short_break_duration: 5 * 60,
            long_break_duration: 15 * 60,
            cycles_before_long_break: 4,
        }
    }

    /// The usage text.
    pub fn help_text() -> (text: String)
        ensures
            text@ == HELP@,
    {
        String::from_str(HELP)
    }

    /// Reads the number in `value`, and hands on the message that `value`
    /// holds in place of one.
    pub fn parse_string(value: Result<&String, String>) -> (number: Result<u64, String>)
        ensures
            match number {
                Ok(n) => parse_string_spec(
                    match value {
                        Ok(text) => Ok(text@),
                        Err(message) => Err(message@),
                    },
                ) == Ok::<u64, Seq<char>>(n),
                Err(message) => parse_string_spec(
                    match value {
                        Ok(text) => Ok(text@),
                        Err(message) => Err(message@),
                    },
                ) == Err::<u64, Seq<char>>(message@),
            },
    {
        match value {
            Err(message) => Err(message),
            Ok(text) => match parse_u64(text.as_str()) {
                Some(n) => Ok(n),
                None => Err(String::from_str("Failed to parse value: ").concat(text.as_str())),
            },
        }
    }

    /// Reads the number from 1 to `most` that the option `key` is given.
    fn parse_amount(key: &str, value_option: Option<&String>, most: u64) -> (amount: Result<
        u64,
        String,
    >)
        ensures
            match amount {
                Ok(n) => parse_amount_spec(
                    key@,
                    match value_option {
                        Some(text) => Some(text@),
                        None => None,
                    },
                    most,
                ) == Ok::<u64, Seq<char>>(n),
                Err(message) => parse_amount_spec(
                    key@,
                    match value_option {
                        Some(text) => Some(text@),
                        None => None,
                    },
                    most,
                ) == Err::<u64, Seq<char>>(message@),
            },
    {
        let text: &String = match value_option {
            Some(text) => text,
            None => {
                return Err(String::from_str("Expected value for parameter: ").concat(key));
            },
        };
        let number: u64 = match Self::parse_string(Ok(text)) {
            Ok(n) => n,
            Err(message) => {
                return Err(message);
            },
        };
        if 1 <= number && number <= most {
            Ok(number)
        } else {
            Err(String::from_str("Failed to parse value: ").concat(text.as_str()))
        }
    }

    /// Reads one option from its key and the argument that follows it.
    pub fn parse_param(key: &str, value_option: Option<&String>) -> (param: Result<
        ConfigParam,
        String,
    >)
        ensures
            match param {
                Ok(p) => parse_param_spec(
                    key@,
                    match value_option {
                        Some(text) => Some(text@),
                        None => None,
                    },
                ) == Ok::<ConfigParam, Seq<char>>(p) && p.valid(),
                Err(message) => parse_param_spec(
                    key@,
                    match value_option {
                        Some(text) => Some(text@),
                        None => None,
                    },
                ) == Err::<ConfigParam, Seq<char>>(message@),
            },
    {
        if same_text(key, "--help") || same_text(key, "-h") {
            Ok(ConfigParam::Help)
        } else if same_text(key, "--work") || same_text(key, "-w") {
            match Self::parse_amount(key, value_option, MAX_MINUTES) {
                Ok(minutes) => Ok(ConfigParam::WorkDuration(minutes)),
                Err(message) => Err(message),
            }
        } else if same_text(key, "--short-break") || same_text(key, "-s") {
            match Self::parse_amount(key, value_option, MAX_MINUTES) {
                Ok(minutes) => Ok(ConfigParam::ShortBreakDuration(minutes)),
                Err(message) => Err(message),
            }
        } else if same_text(key, "--long-break") || same_text(key, "-l") {
            match Self::parse_amount(key, value_option, MAX_MINUTES) {
                Ok(minutes) => Ok(ConfigParam::LongBreakDuration(minutes)),
                Err(message) => Err(message),
            }
        } else if same_text(key, "--cycles") || same_text(key, "-c") {
            match Self::parse_amount(key, value_option, MAX_CYCLES) {
                Ok(count) => Ok(ConfigParam::CyclesBeforeLongBreak(count as u32)),
                Err(message) => Err(message),
            }
        } else {
            Err(String::from_str("Unknown parameter: ").concat(key))
        }
    }

    /// Builds the configuration that the command line `args` asks for. The
    /// error is the message for the first option that cannot be read, or the
    /// usage text where help is asked for first. A configuration that is
    /// built is valid.
    pub fn build(args: &Vec<String>) -> (built: Result<Self, String>)
        ensures
            match built {
                Ok(config) => Self::build_spec(args.deep_view()) == Ok::<Config, Seq<char>>(config)
                    && config.valid(),
                Err(message) => Self::build_spec(args.deep_view()) == Err::<Config, Seq<char>>(
                    message@,
                ),
            },
    {
        let ghost texts = args.deep_view();
        let mut config: Config = Self::new_default();
        let mut at: usize = 1;
        while at < args.len()
            invariant
                1 <= at,
                texts == args.deep_view(),
                config.valid(),
                Self::folded(texts, at as int, config) == Self::build_spec(texts),
            decreases args.len() - at,
        {
            assert(texts[at as int] == args@[at as int]@);
            let value: Option<&String> = if args.len() - at > 1 {
                assert(texts[at + 1] == args@[at + 1]@);
                Some(&args[at + 1])
            } else {
                None
            };
            let param: ConfigParam = match Self::parse_param(args[at].as_str(), value) {
                Ok(p) => p,
                Err(message) => {
                    return Err(message);
                },
            };
            match param {
                ConfigParam::Help => {
                    return Err(Self::help_text());
                },
                ConfigParam::WorkDuration(minutes) => {
                    config.work_duration = minutes * SECS_PER_MINUTE;
                },
                ConfigParam::ShortBreakDuration(minutes) => {
                    config.short_break_duration = minutes * SECS_PER_MINUTE;
                },
                ConfigParam::LongBreakDuration(minutes) => {
                    config.long_break_duration = minutes * SECS_PER_MINUTE;
                },
                ConfigParam::CyclesBeforeLongBreak(count) => {
                    config.cycles_before_long_break = count;
                },
            }
            at = if args.len() - at > 1 {
                at + 2
            } else {
                args.len()
            };
        }
        Ok(config)
    }
}

} // verus!
