//! What an installed wrapper does when it is run in the place of the build
//! script: it runs the sandbox command, and falls back on the build script
//! itself only where that was asked for.
//!
//! The decisions are a state machine. Whoever drives it starts the processes
//! and reports how each ended.

use vstd::prelude::*;
use crate::error::{Error, Failure};
use crate::template::{command_of, split_and_expand, Bindings, Environment};
use crate::text::{same_text, text_of_str, texts};

verus! {

/// How a child process ended.
#[derive(Debug, Clone, Copy, PartialEq, Eq, Structural)]
pub enum Outcome {
    /// The process could not be started.
    NotStarted,
    /// The process ended, with an exit code unless a signal ended it.
    Exited(Option<i32>),
}

impl Outcome {
    /// Whether the process ran and ended with the exit code 0.
    pub open spec fn is_success(self) -> bool {
        self == Outcome::Exited(Some(0))
    }

    /// Whether the process ran and ended with the exit code 0.
    pub fn success(&self) -> (r: bool)
        ensures
            r == self.is_success(),
    {
        match self {
            Outcome::Exited(Some(code)) => *code == 0,
            _ => false,
        }
    }
}

/// What to make of a command that has ended, where `failure_is_error` says
/// whether a command that did not succeed stops the caller.
pub open spec fn judged(outcome: Outcome, failure_is_error: bool) -> Result<bool, Failure> {
    match outcome {
        Outcome::NotStarted => Err(Failure::CommandFailed),
        Outcome::Exited(code) => if code == Some(0i32) {
            Ok(true)
        } else if failure_is_error {
            Err(Failure::CommandFailed)
        } else {
            Ok(false)
        },
    }
}

/// Says what to make of a command whose output has been forwarded: whether
/// it succeeded, or that it stops the caller. A command that could not be
/// started always does; one that did not succeed does if `failure_is_error`
/// is set.
pub fn check_outcome(outcome: Outcome, failure_is_error: bool) -> (r: Result<bool, Error>)
    ensures
        match r {
            Ok(success) => judged(outcome, failure_is_error) == Ok::<bool, Failure>(success),
            Err(e) => judged(outcome, failure_is_error) == Err::<bool, Failure>(e@),
        },
{
    match outcome {
        Outcome::NotStarted => Err(Error::CommandFailed),
        Outcome::Exited(code) => {
            if outcome.success() {
                Ok(true)
            } else if failure_is_error {
                Err(Error::CommandFailed)
            } else {
                Ok(false)
            }
        },
    }
}

/// Where a wrapper stands.
#[derive(Debug, Clone, Copy, PartialEq, Eq, Structural)]
pub enum State {
    /// The template is known and nothing has run yet.
    TemplateLoaded,
    /// The sandbox command runs.
    Sandboxed,
    /// The build script runs outside the sandbox.
    Fallback,
    /// The wrapper ends with the exit code of the last command.
    Finished(i32),
    /// The wrapper ends with a failure of its own.
    Fatal,
}

/// What the wrapper has to do next.
#[derive(Debug, PartialEq, Eq)]
pub enum Action {
    /// Run this command, the sandbox program first, and report how it ended.
    RunSandboxed(Vec<String>),
    /// Run the build script at this path by itself, and report how it ended.
    RunDirectly(String),
    /// Exit with this code.
    Exit(i32),
    /// Show this failure and exit with a failure of the wrapper's own.
    Fail(Error),
}

/// The mathematical value of an [`Action`].
pub enum Step {
    RunSandboxed(Seq<Seq<char>>),
    RunDirectly(Seq<char>),
    Exit(i32),
    Fail(Failure),
}

impl View for Action {
    type V = Step;

    open spec fn view(&self) -> Step {
        match self {
            Action::RunSandboxed(command) => Step::RunSandboxed(texts(command@)),
            Action::RunDirectly(path) => Step::RunDirectly(path@),
            Action::Exit(code) => Step::Exit(*code),
            Action::Fail(e) => Step::Fail(e@),
        }
    }
}

/// Whether a fallback flag with this value asks for the fallback: it is set,
/// and to something other than `0`.
pub open spec fn is_enabled(value: Option<Seq<char>>) -> bool {
    value matches Some(v) && v != "0"@
}

/// Whether an environment flag with this value is switched on: it is set,
/// and to something other than `0`.
pub fn enabled(value: Option<&str>) -> (r: bool)
    ensures
        r == is_enabled(text_of_str(value)),
{
    match value {
        Some(v) => !same_text(v, "0"),
        None => false,
    }
}

/// The first step: the sandbox command is built from the template.
pub open spec fn first_step(template: Option<Seq<char>>, sibling: Seq<char>, env: Bindings) -> (
    State,
    Step,
) {
    match command_of(template, sibling, env) {
        Ok(command) => (State::Sandboxed, Step::RunSandboxed(command)),
        Err(failure) => (State::Fatal, Step::Fail(failure)),
    }
}

/// The step after a command has ended. The sandbox command decides the
/// outcome if it succeeds. If it fails, the build script runs by itself
/// where `fallback` is set, and nowhere else. After a fallback the wrapper
/// ends as the build script did.
pub open spec fn next_step(state: State, outcome: Outcome, sibling: Seq<char>, fallback: bool) -> (
    State,
    Step,
) {
    match state {
        State::Sandboxed => if outcome.is_success() {
            (State::Finished(0), Step::Exit(0))
        } else if fallback {
            (State::Fallback, Step::RunDirectly(sibling))
        } else {
            (State::Fatal, Step::Fail(Failure::CommandFailed))
        },
        State::Fallback => match outcome {
            Outcome::Exited(Some(code)) => (State::Finished(code), Step::Exit(code)),
            _ => (State::Fatal, Step::Fail(Failure::CommandFailed)),
        },
        State::TemplateLoaded => (State::Fatal, Step::Fail(Failure::CommandFailed)),
        State::Finished(code) => (State::Finished(code), Step::Exit(code)),
        State::Fatal => (State::Fatal, Step::Fail(Failure::CommandFailed)),
    }
}

/// A wrapper at run time: the build script that it stands for, whether it
/// may fall back on it, and where it stands.
pub struct Shim {
    pub sibling_path: String,
    pub fallback: bool,
    pub state: State,
}

impl Shim {
    /// A wrapper for the build script at `sibling_path` that has not run
    /// anything. `fallback` is the value of the fallback flag, if it is set.
    pub fn new(sibling_path: &str, fallback: Option<&str>) -> (shim: Shim)
        ensures
            shim.sibling_path@ == sibling_path@,
            shim.fallback == is_enabled(text_of_str(fallback)),
            shim.state == State::TemplateLoaded,
    {
        Shim {
            sibling_path: sibling_path.to_owned(),
            fallback: enabled(fallback),
            state: State::TemplateLoaded,
        }
    }

    /// Builds the sandbox command from the template that was fixed when the
    /// wrapper was compiled, with the build script's path standing for `{}`.
    pub fn start(&mut self, template: Option<&str>, env: &Environment) -> (action: Action)
        requires
            old(self).state == State::TemplateLoaded,
        ensures
            (final(self).state, action@) == first_step(
                text_of_str(template),
                old(self).sibling_path@,
                env@,
            ),
            final(self).sibling_path == old(self).sibling_path,
            final(self).fallback == old(self).fallback,
    {
        match split_and_expand(template, self.sibling_path.as_str(), env) {
            Ok(command) => {
                self.state = State::Sandboxed;
                Action::RunSandboxed(command)
            },
            Err(e) => {
                self.state = State::Fatal;
                Action::Fail(e)
            },
        }
    }

    /// Takes note of how the command that runs has ended, and says what to
    /// do next.
    pub fn finished(&mut self, outcome: Outcome) -> (action: Action)
        ensures
            (final(self).state, action@) == next_step(
                old(self).state,
                outcome,
                old(self).sibling_path@,
                old(self).fallback,
            ),
            final(self).sibling_path == old(self).sibling_path,
            final(self).fallback == old(self).fallback,
    {
        match self.state {
            State::Sandboxed => {
                if outcome.success() {
                    self.state = State::Finished(0);
                    Action::Exit(0)
                } else if self.fallback {
                    self.state = State::Fallback;
                    Action::RunDirectly(self.sibling_path.clone())
                } else {
                    self.state = State::Fatal;
                    Action::Fail(Error::CommandFailed)
                }
            },
            State::Fallback => match outcome {
                Outcome::Exited(Some(code)) => {
                    self.state = State::Finished(code);
                    Action::Exit(code)
                },
                _ => {
                    self.state = State::Fatal;
                    Action::Fail(Error::CommandFailed)
                },
            },
            State::TemplateLoaded => {
                self.state = State::Fatal;
                Action::Fail(Error::CommandFailed)
            },
            State::Finished(code) => Action::Exit(code),
            State::Fatal => Action::Fail(Error::CommandFailed),
        }
    }
}

/// How many commands a wrapper in this state may still run, and one more
/// where it has not ended.
pub open spec fn steps_left(state: State) -> nat {
    match state {
        State::TemplateLoaded => 3,
        State::Sandboxed => 2,
        State::Fallback => 1,
        State::Finished(_) => 0,
        State::Fatal => 0,
    }
}

/// Whether the wrapper has ended.
pub open spec fn is_terminal(state: State) -> bool {
    state is Finished || state is Fatal
}

/// A wrapper ends: every step brings it nearer to its end, so it runs the
/// sandbox command once and the build script at most once.
pub proof fn theorem_progress(
    state: State,
    outcome: Outcome,
    sibling: Seq<char>,
    fallback: bool,
)
    requires
        !is_terminal(state),
    ensures
        steps_left(next_step(state, outcome, sibling, fallback).0) < steps_left(state),
{
}

/// A wrapper that has ended stays as it is.
pub proof fn theorem_terminal(state: State, outcome: Outcome, sibling: Seq<char>, fallback: bool)
    requires
        is_terminal(state),
    ensures
        next_step(state, outcome, sibling, fallback).0 == state,
{
}

/// The build script never runs outside the sandbox unless the fallback was
/// asked for and the sandbox command has failed.
pub proof fn theorem_fail_closed(
    state: State,
    outcome: Outcome,
    sibling: Seq<char>,
    fallback: bool,
    template: Option<Seq<char>>,
    env: Bindings,
)
    ensures
        first_step(template, sibling, env).1 !is RunDirectly,
        next_step(state, outcome, sibling, fallback).1 is RunDirectly ==> fallback
            && state == State::Sandboxed && !outcome.is_success(),
{
}

/// The exit code of a wrapper is that of the command that ran last: 0 after
/// a sandbox command that succeeded, and the build script's own after a
/// fallback.
pub proof fn theorem_exit_code(
    state: State,
    outcome: Outcome,
    sibling: Seq<char>,
    fallback: bool,
    code: i32,
)
    requires
        !is_terminal(state),
        next_step(state, outcome, sibling, fallback).1 == Step::Exit(code),
    ensures
        outcome == Outcome::Exited(Some(code)),
        state == State::Sandboxed ==> code == 0,
{
}

} // verus!
