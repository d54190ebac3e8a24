use vstd::prelude::*;

use crate::command::{create_command, shell_split};
use std::str::FromStr;

verus! {

/// The error cases for the process action.
#[derive(Debug, PartialEq, Eq)]
pub enum ProcessError {
    /// The command is invalid, usually because of mismatched quotation.
    CommandParseFailure(String),
    /// The stop signal is not a valid signal name.
    SignalParseFailure(String),
    /// Starting the subprocess failed; the parameter holds the message.
    StartFailure(String),
    /// Stopping the subprocess failed; the parameter holds the message.
    StopFailure(String),
    /// Killing the subprocess failed; the parameter holds the message.
    KillFailed(String),
    /// The lock on the child is poisoned: a thread failed while holding it.
    MutexPoisoned,
}

impl ProcessError {
    /// Turns the process error into the generic action error: parse errors
    /// are misconfiguration, everything else a runtime failure.
    pub fn into_action(self) -> (r: super::ActionError)
        ensures
            (self is CommandParseFailure || self is SignalParseFailure) == (r is Misconfigured),
            !(self is CommandParseFailure || self is SignalParseFailure) == (r is FailedAction),
    {
        match self {
            ProcessError::CommandParseFailure(c) => super::ActionError::Misconfigured(
                "the command ".to_owned().concat(c.as_str()).concat(" cannot be parsed"),
            ),
            ProcessError::SignalParseFailure(s) => super::ActionError::Misconfigured(
                "the signal ".to_owned().concat(s.as_str()).concat(" is not valid"),
            ),
            ProcessError::StartFailure(m) => super::ActionError::FailedAction(
                "the script cannot start: ".to_owned().concat(m.as_str()),
            ),
            ProcessError::StopFailure(m) => super::ActionError::FailedAction(
                "the script cannot be stopped: ".to_owned().concat(m.as_str()),
            ),
            ProcessError::KillFailed(m) => super::ActionError::FailedAction(
                "killing the process failed with error: ".to_owned().concat(m.as_str()),
            ),
            ProcessError::MutexPoisoned => super::ActionError::FailedAction(
                "the mutex is poisoned".to_owned(),
            ),
        }
    }
}

/// The signal number a signal name denotes, if the name is valid.
pub uninterp spec fn signal_of_name(name: Seq<char>) -> Option<i32>;

/// Relies on nix::sys::signal::Signal::from_str: parses a signal name such
/// as `SIGTERM`; the result depends on the name alone.
#[verifier::external_body]
fn parse_signal(name: &str) -> (r: Option<i32>)
    ensures
        r == signal_of_name(name@),
{
    nix::sys::signal::Signal::from_str(name).ok().map(|sig| sig as i32)
}

/// Parameters for the supervised subprocess.
#[derive(Debug, Clone)]
pub struct ProcessParams {
    pub directory: String,
    pub command: String,
    pub process: duct::Expression,
    pub retries: u32,
    pub stop_signal: String,
    pub stop_timeout_ms: u64,
    pub runs_in_shell: bool,
}

impl ProcessParams {
    /// Creates parameters from a command line, with no retries, `SIGTERM`
    /// as stop signal and a ten second graceful stop window.
    pub fn new(original_command: String, directory: String, runs_in_shell: bool) -> (r: Result<
        ProcessParams,
        ProcessError,
    >)
        ensures
            (r is Ok) == (shell_split(original_command@) matches Some(w) && w.len() > 0),
            r matches Ok(p) ==> shell_split(original_command@) matches Some(w) && p.command@ == w[0]
                && p.directory@ == directory@ && p.runs_in_shell == runs_in_shell && p.retries == 0
                && p.stop_signal@ == "SIGTERM"@ && p.stop_timeout_ms == 10000,
            r matches Err(e) ==> e matches ProcessError::CommandParseFailure(c) && c@
                == original_command@,
    {
        match create_command(original_command.as_str(), runs_in_shell) {
            None => Err(ProcessError::CommandParseFailure(original_command)),
            Some((command, process)) => Ok(
                ProcessParams {
                    directory,
                    command,
                    process,
                    retries: 0,
                    stop_signal: "SIGTERM".to_owned(),
                    stop_timeout_ms: 10000,
                    runs_in_shell,
                },
            ),
        }
    }

    /// Sets how many unsupervised exits the subprocess survives.
    pub fn set_retries(&mut self, retries: u32)
        ensures
            *final(self) == (ProcessParams { retries, ..*old(self) }),
    {
        self.retries = retries;
    }

    /// Sets the stop signal by name; an unknown name is a misconfiguration
    /// and leaves the parameters unchanged.
    pub fn set_stop_signal(&mut self, stop_signal: String) -> (r: Result<(), ProcessError>)
        ensures
            (r is Ok) == (signal_of_name(stop_signal@) is Some),
            r is Ok ==> *final(self) == (ProcessParams { stop_signal, ..*old(self) }),
            r matches Err(e) ==> *final(self) == *old(self) && (e matches
            ProcessError::SignalParseFailure(s) && s@ == stop_signal@),
    {
        match parse_signal(stop_signal.as_str()) {
            Some(_) => {
                self.stop_signal = stop_signal;
                Ok(())
            },
            None => Err(ProcessError::SignalParseFailure(stop_signal)),
        }
    }

    /// Sets the graceful stop window in milliseconds.
    pub fn set_stop_timeout(&mut self, stop_timeout_ms: u64)
        ensures
            *final(self) == (ProcessParams { stop_timeout_ms, ..*old(self) }),
    {
        self.stop_timeout_ms = stop_timeout_ms;
    }
}

/// How a supervised child came to rest.
#[derive(Debug, PartialEq, Eq, Structural)]
pub enum ChildExit {
    /// The child was terminated by a signal: an intentional stop.
    Signalled,
    /// The child exited on its own.
    Exited,
    /// The child's output could not be taken at all.
    Unreadable,
}

/// What the supervisor does after its child came to rest.
#[derive(Debug, PartialEq, Eq, Structural)]
pub enum SupervisorDirective {
    /// Leave quietly: the stop was intentional, the slot keeps its child.
    Finish,
    /// Start a replacement child after a short pause; the parameter is the
    /// remaining try budget.
    Retry(u64),
    /// Empty the slot: the child is terminally failed.
    GiveUp,
}

/// The try budget a supervisor starts with: the configured retries plus the
/// initial run.
pub fn initial_tries(retries: u32) -> (r: u64)
    ensures
        r == retries as u64 + 1,
{
    retries as u64 + 1
}

/// The supervision rule, applied each time the child comes to rest.
///
/// A signalled child means an intentional stop and is left alone; an
/// unreadable child is terminal; an ordinary exit consumes one try, and the
/// child is restarted while tries remain.
pub fn next_directive(tries: u64, exit: ChildExit) -> (r: SupervisorDirective)
    ensures
        exit is Signalled ==> r is Finish,
        exit is Unreadable ==> r is GiveUp,
        exit is Exited && tries <= 1 ==> r is GiveUp,
        exit is Exited && tries > 1 ==> r == SupervisorDirective::Retry((tries - 1) as u64),
{
    match exit {
        ChildExit::Signalled => SupervisorDirective::Finish,
        ChildExit::Unreadable => SupervisorDirective::GiveUp,
        ChildExit::Exited => {
            if tries <= 1 {
                SupervisorDirective::GiveUp
            } else {
                SupervisorDirective::Retry(tries - 1)
            }
        },
    }
}

/// What the graceful stop does at each one second poll.
#[derive(Debug, PartialEq, Eq, Structural)]
pub enum StopStep {
    /// The child has exited: the stop is complete.
    Done,
    /// Keep waiting within the graceful window.
    Poll,
    /// The window has passed: force-kill the child.
    Kill,
}

/// The graceful-stop rule: a stop ends only with the child exited or
/// force-killed, and the graceful window is bounded by the stop timeout.
pub fn stop_step(elapsed_ms: u64, stop_timeout_ms: u64, exited: bool) -> (r: StopStep)
    ensures
        exited ==> r is Done,
        !exited && elapsed_ms < stop_timeout_ms ==> r is Poll,
        !exited && elapsed_ms >= stop_timeout_ms ==> r is Kill,
{
    if exited {
        StopStep::Done
    } else if elapsed_ms < stop_timeout_ms {
        StopStep::Poll
    } else {
        StopStep::Kill
    }
}

} // verus!
