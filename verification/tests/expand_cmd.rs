use build_wrap::error::Error;
use build_wrap::template::{expand, Environment};

fn environment() -> Environment {
    Environment {
        private_tmpdir: None,
        profile_path: None,
        variables: vec![(String::from("KEY"), String::from("VALUE"))],
    }
}

fn surround_and_expand(s: &str) -> Result<String, Error> {
    let cmd = String::from("left ") + s + " right";
    expand(&cmd, Some("path"), &environment())
}

fn check_expand_cmd() {
    let successes = [
        ("left path right", "{}"),
        ("left VALUE right", "{KEY}"),
        ("left { right", "{{"),
        ("left } right", "}}"),
    ];

    let failures = [
        ("environment variable `UNKNOWN` not found", "{UNKNOWN}"),
        ("unbalanced '{'", "{"),
        ("unbalanced '}'", "}"),
    ];

    for (expected, s) in successes {
        assert_eq!(expected, surround_and_expand(s).unwrap());
    }

    for (expected, s) in failures {
        assert_eq!(expected, surround_and_expand(s).unwrap_err().message());
    }
}

#[test]
fn expand_cmd_expand_cmd() {
    check_expand_cmd();
}

#[test]
fn common_expand_cmd() {
    check_expand_cmd();
}
