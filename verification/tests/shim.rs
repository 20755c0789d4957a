use build_wrap::error::Error;
use build_wrap::shim::{check_outcome, enabled, Action, Outcome, Shim, State};
use build_wrap::template::Environment;

fn no_variables() -> Environment {
    Environment { private_tmpdir: None, profile_path: None, variables: Vec::new() }
}

fn strings(words: &[&str]) -> Vec<String> {
    words.iter().map(|w| w.to_string()).collect()
}

const SIBLING: &str = "/t/build/p-1/.tmpAbCdEf";

#[test]
fn flag_is_enabled_unless_unset_or_zero() {
    assert!(!enabled(None));
    assert!(!enabled(Some("0")));
    assert!(enabled(Some("1")));
    assert!(enabled(Some("")));
    assert!(enabled(Some("00")));
    assert!(enabled(Some("false")));
}

#[test]
fn outcome_success() {
    assert!(Outcome::Exited(Some(0)).success());
    assert!(!Outcome::Exited(Some(1)).success());
    assert!(!Outcome::Exited(Some(-1)).success());
    assert!(!Outcome::Exited(None).success());
    assert!(!Outcome::NotStarted.success());
}

#[test]
fn check_outcome_of_each_kind() {
    assert_eq!(check_outcome(Outcome::Exited(Some(0)), true), Ok(true));
    assert_eq!(check_outcome(Outcome::Exited(Some(0)), false), Ok(true));
    assert_eq!(check_outcome(Outcome::Exited(Some(2)), false), Ok(false));
    assert_eq!(check_outcome(Outcome::Exited(None), false), Ok(false));
    assert_eq!(check_outcome(Outcome::Exited(Some(2)), true), Err(Error::CommandFailed));
    assert_eq!(check_outcome(Outcome::Exited(None), true), Err(Error::CommandFailed));
    assert_eq!(check_outcome(Outcome::NotStarted, true), Err(Error::CommandFailed));
    assert_eq!(check_outcome(Outcome::NotStarted, false), Err(Error::CommandFailed));
    assert_eq!(Error::CommandFailed.message(), "command failed");
}

#[test]
fn shim_starts_with_the_sandbox_command() {
    let mut shim = Shim::new(SIBLING, None);
    assert_eq!(shim.state, State::TemplateLoaded);
    assert!(!shim.fallback);
    assert_eq!(shim.sibling_path, SIBLING);
    let action = shim.start(Some("time -p {}"), &no_variables());
    assert_eq!(action, Action::RunSandboxed(strings(&["time", "-p", SIBLING])));
    assert_eq!(shim.state, State::Sandboxed);
}

#[test]
fn shim_fails_on_a_template_error() {
    let cases = [
        (None, Error::TemplateUndefined),
        (Some(""), Error::EmptyCommand),
        (Some("a \\"), Error::TrailingBackslash),
        (Some("a \\b"), Error::IllegalEscape),
        (Some("{"), Error::UnbalancedOpen),
        (Some("}"), Error::UnbalancedClose),
        (Some("{UNKNOWN}"), Error::VariableNotFound(String::from("UNKNOWN"))),
    ];
    for (template, error) in cases {
        let mut shim = Shim::new(SIBLING, Some("1"));
        assert_eq!(shim.start(template, &no_variables()), Action::Fail(error));
        assert_eq!(shim.state, State::Fatal);
        assert_eq!(shim.finished(Outcome::Exited(Some(0))), Action::Fail(Error::CommandFailed));
        assert_eq!(shim.state, State::Fatal);
    }
}

#[test]
fn shim_ends_with_a_sandbox_command_that_succeeds() {
    for fallback in [None, Some("1")] {
        let mut shim = Shim::new(SIBLING, fallback);
        shim.start(Some("sandbox {}"), &no_variables());
        assert_eq!(shim.finished(Outcome::Exited(Some(0))), Action::Exit(0));
        assert_eq!(shim.state, State::Finished(0));
        assert_eq!(shim.finished(Outcome::Exited(Some(3))), Action::Exit(0));
        assert_eq!(shim.state, State::Finished(0));
    }
}

#[test]
fn shim_fails_closed() {
    for fallback in [None, Some("0")] {
        for outcome in [Outcome::Exited(Some(1)), Outcome::Exited(None), Outcome::NotStarted] {
            let mut shim = Shim::new(SIBLING, fallback);
            shim.start(Some("sandbox {}"), &no_variables());
            assert_eq!(shim.finished(outcome), Action::Fail(Error::CommandFailed));
            assert_eq!(shim.state, State::Fatal);
        }
    }
}

#[test]
fn shim_falls_back_where_asked() {
    for outcome in [Outcome::Exited(Some(1)), Outcome::Exited(None), Outcome::NotStarted] {
        let mut shim = Shim::new(SIBLING, Some("1"));
        assert!(shim.fallback);
        shim.start(Some("sandbox {}"), &no_variables());
        assert_eq!(shim.finished(outcome), Action::RunDirectly(String::from(SIBLING)));
        assert_eq!(shim.state, State::Fallback);
    }
}

#[test]
fn shim_ends_as_the_fallback_does() {
    for code in [0, 1, 101, -2] {
        let mut shim = Shim::new(SIBLING, Some("1"));
        shim.start(Some("sandbox {}"), &no_variables());
        shim.finished(Outcome::Exited(Some(7)));
        assert_eq!(shim.finished(Outcome::Exited(Some(code))), Action::Exit(code));
        assert_eq!(shim.state, State::Finished(code));
    }
    for outcome in [Outcome::Exited(None), Outcome::NotStarted] {
        let mut shim = Shim::new(SIBLING, Some("1"));
        shim.start(Some("sandbox {}"), &no_variables());
        shim.finished(Outcome::Exited(Some(7)));
        assert_eq!(shim.finished(outcome), Action::Fail(Error::CommandFailed));
        assert_eq!(shim.state, State::Fatal);
    }
}

#[test]
fn shim_that_has_not_started_has_nothing_to_finish() {
    let mut shim = Shim::new(SIBLING, Some("1"));
    assert_eq!(shim.finished(Outcome::Exited(Some(0))), Action::Fail(Error::CommandFailed));
    assert_eq!(shim.state, State::Fatal);
}

#[test]
fn scenario_fallback_after_a_missing_sandbox_program() {
    let mut shim = Shim::new(SIBLING, Some("1"));
    let action = shim.start(Some("/nonexistent/sandbox --flag {}"), &no_variables());
    assert_eq!(action, Action::RunSandboxed(strings(&["/nonexistent/sandbox", "--flag", SIBLING])));
    let action = shim.finished(Outcome::NotStarted);
    assert_eq!(action, Action::RunDirectly(String::from(SIBLING)));
    let action = shim.finished(Outcome::Exited(Some(0)));
    assert_eq!(action, Action::Exit(0));
    assert_eq!(shim.state, State::Finished(0));
}

#[test]
fn scenario_sandbox_refuses_a_write_outside_the_output_directory() {
    let env = Environment {
        private_tmpdir: None,
        profile_path: None,
        variables: vec![(String::from("OUT_DIR"), String::from("/t/build/p-1/out"))],
    };
    let template = "bwrap --ro-bind / / --bind {OUT_DIR} {OUT_DIR} {}";
    let command =
        strings(&["bwrap", "--ro-bind", "/", "/", "--bind", "/t/build/p-1/out", "/t/build/p-1/out", SIBLING]);

    // A build script that writes inside its output directory.
    let mut shim = Shim::new(SIBLING, None);
    assert_eq!(shim.start(Some(template), &env), Action::RunSandboxed(command.clone()));
    assert_eq!(shim.finished(Outcome::Exited(Some(0))), Action::Exit(0));

    // One that writes outside of it fails in the sandbox, and so does the build.
    let mut shim = Shim::new(SIBLING, None);
    assert_eq!(shim.start(Some(template), &env), Action::RunSandboxed(command));
    assert_eq!(shim.finished(Outcome::Exited(Some(101))), Action::Fail(Error::CommandFailed));
    assert_eq!(shim.state, State::Fatal);
}
