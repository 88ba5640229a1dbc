//! What a process decides before it sets up its log: where the log goes, and
//! what a proxy's log file is called when nobody chose a name.
//!
//! Nothing here reads the environment or opens a file: the caller reads what
//! has to be read and hands it in as plain values. A fresh file name takes
//! the time from the clock and a few letters from a random generator.

use rand::distr::{Alphanumeric, SampleString};
use std::time::SystemTime;
use vstd::prelude::*;
use vstd::string::StringExecFns;

verus! {

/// The command that a process runs, as far as its log depends on it.
#[derive(Debug, Clone, Copy, PartialEq, Eq, Structural)]
pub enum CommandKind {
    /// The internal proxy.
    InternalProxy,
    /// The external proxy.
    ExternalProxy,
    /// Listing the targets, for a program that reads the answer.
    ListTargets,
    /// Running on behalf of an editor extension.
    ExtensionExec,
    /// Any other command.
    Other,
}

/// How a process sets up its log.
#[derive(Debug, Clone, PartialEq, Eq)]
pub enum TracingSetup {
    /// Everything goes to the console that listens at this address.
    Console(String),
    /// Nothing is set up: the command does that by itself.
    Untouched,
    /// Events are written to standard error.
    ToStderr,
    /// Errors are reported as JSON, for a program to read; events are
    /// written to standard error only where `to_stderr` is set.
    JsonErrors {
        /// Whether events are written to standard error as well.
        to_stderr: bool,
    },
}

/// The text `true`.
pub open spec fn text_true() -> Seq<char> {
    seq!['t', 'r', 'u', 'e']
}

/// Whether a switch from the environment is on: it is there and reads
/// `true`, letter for letter.
pub open spec fn switched_on(switch: Option<String>) -> bool {
    switch matches Some(text) && text@ == text_true()
}

/// How a process that runs `command` sets up its log.
///
/// A console address goes before everything else. Without one, the proxies
/// are left to set up their own log; the commands whose output a program
/// reads report errors as JSON and keep quiet unless `force_log` is on; and
/// every other command writes to standard error.
pub open spec fn tracing_setup_spec(
    console_addr: Option<String>,
    command: CommandKind,
    force_log: Option<String>,
) -> TracingSetup {
    match console_addr {
        Some(address) => TracingSetup::Console(address),
        None => match command {
            CommandKind::InternalProxy => TracingSetup::Untouched,
            CommandKind::ExternalProxy => TracingSetup::Untouched,
            CommandKind::ListTargets => TracingSetup::JsonErrors {
                to_stderr: switched_on(force_log),
            },
            CommandKind::ExtensionExec => TracingSetup::JsonErrors {
                to_stderr: switched_on(force_log),
            },
            CommandKind::Other => TracingSetup::ToStderr,
        },
    }
}

/// Decides how a process that runs `command` sets up its log.
///
/// `console_addr` is the address of the console, where one is set, and
/// `force_log` the switch that makes a quiet command write its events.
pub fn tracing_setup(
    console_addr: Option<String>,
    command: CommandKind,
    force_log: Option<String>,
) -> (setup: TracingSetup)
    ensures
        setup == tracing_setup_spec(console_addr, command, force_log),
{
    match console_addr {
        Some(address) => TracingSetup::Console(address),
        None => match command {
            CommandKind::InternalProxy | CommandKind::ExternalProxy => TracingSetup::Untouched,
            CommandKind::ListTargets | CommandKind::ExtensionExec => {
                let to_stderr = match &force_log {
                    Some(text) => {
                        proof {
                            reveal_strlit("true");
                            assert("true"@ =~= text_true());
                        }
                        *text == "true".to_owned()
                    },
                    None => false,
                };
                TracingSetup::JsonErrors { to_stderr }
            },
            CommandKind::Other => TracingSetup::ToStderr,
        },
    }
}

/// The character for one decimal digit.
pub open spec fn digit(d: nat) -> char {
    if d == 0 {
        '0'
    } else if d == 1 {
        '1'
    } else if d == 2 {
        '2'
    } else if d == 3 {
        '3'
    } else if d == 4 {
        '4'
    } else if d == 5 {
        '5'
    } else if d == 6 {
        '6'
    } else if d == 7 {
        '7'
    } else if d == 8 {
        '8'
    } else {
        '9'
    }
}

/// A number written in decimal, without leading zeros.
pub open spec fn decimal(n: nat) -> Seq<char>
    decreases n,
{
    if n < 10 {
        seq![digit(n)]
    } else {
        decimal(n / 10).push(digit(n % 10))
    }
}

/// The name of a log file: `/tmp/`, the prefix, the time stamp in decimal
/// and the random name, joined by hyphens, with `.log` at the end.
pub open spec fn logfile_path_spec(prefix: Seq<char>, timestamp: nat, random_name: Seq<char>) -> Seq<
    char,
> {
    seq!['/', 't', 'm', 'p', '/'] + prefix + seq!['-'] + decimal(timestamp) + seq!['-']
        + random_name + seq!['.', 'l', 'o', 'g']
}

/// Writes `n` in decimal at the end of `out`.
fn push_decimal(out: &mut String, n: u64)
    ensures
        final(out)@ == old(out)@ + decimal(n as nat),
    decreases n,
{
    if n >= 10 {
        push_decimal(out, n / 10);
    }
    let d = n % 10;
    proof {
        reveal_strlit("0");
        reveal_strlit("1");
        reveal_strlit("2");
        reveal_strlit("3");
        reveal_strlit("4");
        reveal_strlit("5");
        reveal_strlit("6");
        reveal_strlit("7");
        reveal_strlit("8");
        reveal_strlit("9");
    }
    let text = if d == 0 {
        "0"
    } else if d == 1 {
        "1"
    } else if d == 2 {
        "2"
    } else if d == 3 {
        "3"
    } else if d == 4 {
        "4"
    } else if d == 5 {
        "5"
    } else if d == 6 {
        "6"
    } else if d == 7 {
        "7"
    } else if d == 8 {
        "8"
    } else {
        "9"
    };
    assert(text@ =~= seq![digit(d as nat)]);
    out.append(text);
    assert(final(out)@ =~= old(out)@ + decimal(n as nat));
}

/// The name of a log file with the given time stamp and random name.
///
/// `timestamp` is a time in seconds since the epoch and `random_name` a few
/// random letters and digits: together they keep two sessions from writing
/// to one file.
pub fn logfile_path(prefix: &str, timestamp: u64, random_name: &str) -> (path: String)
    ensures
        path@ == logfile_path_spec(prefix@, timestamp as nat, random_name@),
{
    proof {
        reveal_strlit("/tmp/");
        reveal_strlit("-");
        reveal_strlit(".log");
    }
    let mut path = "/tmp/".to_owned();
    path.append(prefix);
    path.append("-");
    push_decimal(&mut path, timestamp);
    path.append("-");
    path.append(random_name);
    path.append(".log");
    assert(path@ =~= logfile_path_spec(prefix@, timestamp as nat, random_name@));
    path
}

/// How many letters and digits the random part of a file name has.
pub const RANDOM_NAME_LEN: usize = 7;

/// An ASCII letter or digit.
pub open spec fn alphanumeric(c: char) -> bool {
    ('a' <= c && c <= 'z') || ('A' <= c && c <= 'Z') || ('0' <= c && c <= '9')
}

/// `len` characters, each of them an ASCII letter or digit.
pub open spec fn is_random_name(name: Seq<char>, len: nat) -> bool {
    name.len() == len && forall|i: int| 0 <= i < name.len() ==> alphanumeric(#[trigger] name[i])
}

/// Draws a random name from the generator of the calling thread.
///
/// This is `Alphanumeric.sample_string` of `rand` on `rand::rng()`. It
/// appends `len` samples to an empty string, each of them one of the 62
/// ASCII letters and digits. Which of them is left to chance, so nothing more
/// is claimed.
#[verifier::external_body]
fn random_name(len: usize) -> (name: String)
    ensures
        is_random_name(name@, len as nat),
{
    Alphanumeric.sample_string(&mut rand::rng(), len)
}

/// Reads the clock: the whole seconds since the epoch.
///
/// This is `SystemTime::elapsed` on `UNIX_EPOCH`, which fails where the
/// clock stands before the epoch: then there is no answer. Nothing is
/// claimed of the number, which is the clock's.
#[verifier::external_body]
fn seconds_since_epoch() -> (seconds: Option<u64>) {
    match SystemTime::UNIX_EPOCH.elapsed() {
        Ok(elapsed) => Some(elapsed.as_secs()),
        Err(_) => None,
    }
}

/// Makes up the name of the log file of a proxy for which none was chosen:
/// [`logfile_path`] of `prefix`, the time on the clock and a random name of
/// [`RANDOM_NAME_LEN`] letters and digits.
///
/// There is no name where the clock stands before the epoch.
pub fn default_logfile_path(prefix: &str) -> (path: Option<String>)
    ensures
        path matches Some(made) ==> exists|timestamp: nat, random_name: Seq<char>|
            timestamp <= u64::MAX && is_random_name(random_name, RANDOM_NAME_LEN as nat)
                && made@ == #[trigger] logfile_path_spec(prefix@, timestamp, random_name),
{
    let random_name = random_name(RANDOM_NAME_LEN);
    let clock = seconds_since_epoch();
    let path = logfile_path_at(prefix, clock, random_name.as_str());
    assert(path matches Some(made) ==> made@ == logfile_path_spec(
        prefix@,
        clock->Some_0 as nat,
        random_name@,
    ));
    path
}

/// The name of a log file for what the clock answered: [`logfile_path`] at
/// the time that the clock gave, and no name where the clock gave none.
pub fn logfile_path_at(prefix: &str, clock: Option<u64>, random_name: &str) -> (path: Option<
    String,
>)
    ensures
        path is Some <==> clock is Some,
        path matches Some(made) ==> made@ == logfile_path_spec(
            prefix@,
            clock->Some_0 as nat,
            random_name@,
        ),
{
    match clock {
        Some(timestamp) => Some(logfile_path(prefix, timestamp, random_name)),
        None => None,
    }
}

} // verus!
