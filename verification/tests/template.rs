use build_wrap::defaults::{DEFAULT_PROFILE, LINUX_DEFAULT_CMD, MACOS_DEFAULT_CMD};
use build_wrap::error::Error;
use build_wrap::template::{
    expand, private_tmpdir, split_and_expand, split_ascii_whitespace, split_escaped,
    unwrap_command, Environment,
};

fn no_variables() -> Environment {
    Environment { private_tmpdir: None, profile_path: None, variables: Vec::new() }
}

fn variables(pairs: &[(&str, &str)]) -> Environment {
    Environment {
        private_tmpdir: None,
        profile_path: None,
        variables: pairs.iter().map(|(k, v)| (k.to_string(), v.to_string())).collect(),
    }
}

fn strings(words: &[&str]) -> Vec<String> {
    words.iter().map(|w| w.to_string()).collect()
}

#[test]
fn split_at_whitespace() {
    assert_eq!(split_escaped("time -p {}"), Ok(strings(&["time", "-p", "{}"])));
    assert_eq!(split_escaped("a\tb\nc\rd\x0Ce"), Ok(strings(&["a", "b", "c", "d", "e"])));
}

#[test]
fn split_collapses_whitespace() {
    assert_eq!(split_escaped("  a   b  "), Ok(strings(&["a", "b"])));
    assert_eq!(split_escaped(""), Ok(Vec::new()));
    assert_eq!(split_escaped(" \t\n"), Ok(Vec::new()));
}

#[test]
fn split_keeps_escaped_whitespace_and_backslash() {
    assert_eq!(split_escaped("a\\ b c"), Ok(strings(&["a b", "c"])));
    assert_eq!(split_escaped("a\\\\b"), Ok(strings(&["a\\b"])));
    assert_eq!(split_escaped("\\ "), Ok(strings(&[" "])));
    assert_eq!(split_escaped("a \\\n b"), Ok(strings(&["a", "\n", "b"])));
}

#[test]
fn split_refuses_other_escapes() {
    assert_eq!(split_escaped("a\\b"), Err(Error::IllegalEscape));
    assert_eq!(split_escaped("a \\{ b"), Err(Error::IllegalEscape));
    assert_eq!(split_escaped("\\\u{e9}"), Err(Error::IllegalEscape));
    assert_eq!(Error::IllegalEscape.message(), "illegally escaped character");
}

#[test]
fn split_refuses_trailing_backslash() {
    assert_eq!(split_escaped("a b\\"), Err(Error::TrailingBackslash));
    assert_eq!(split_escaped("\\"), Err(Error::TrailingBackslash));
    assert_eq!(Error::TrailingBackslash.message(), "trailing backslash");
}

#[test]
fn split_reports_the_first_failure() {
    assert_eq!(split_escaped("a\\b c\\"), Err(Error::IllegalEscape));
}

#[test]
fn split_never_yields_an_empty_word() {
    for template in ["", " ", "a", " a ", "a  b", "\\  a", LINUX_DEFAULT_CMD, MACOS_DEFAULT_CMD] {
        let words = split_escaped(template).unwrap();
        assert!(words.iter().all(|w| !w.is_empty()));
    }
}

#[test]
fn split_of_a_single_word_is_that_word() {
    for word in ["bwrap", "{OUT_DIR}", "--unshare-net", "\u{e9}t\u{e9}"] {
        assert_eq!(split_escaped(word), Ok(strings(&[word])));
    }
}

#[test]
fn split_of_the_default_commands() {
    assert_eq!(
        split_escaped(LINUX_DEFAULT_CMD),
        Ok(strings(&[
            "bwrap",
            "--ro-bind",
            "/",
            "/",
            "--dev-bind",
            "/dev",
            "/dev",
            "--bind",
            "{OUT_DIR}",
            "{OUT_DIR}",
            "--bind",
            "/tmp",
            "/tmp",
            "--unshare-net",
            "{}",
        ]))
    );
    assert_eq!(
        split_escaped(MACOS_DEFAULT_CMD),
        Ok(strings(&["sandbox-exec", "-f", "{BUILD_WRAP_PROFILE_PATH}", "{}"]))
    );
}

#[test]
fn expand_literal_text() {
    assert_eq!(expand("", Some("p"), &no_variables()), Ok(String::new()));
    assert_eq!(expand("--ro-bind", None, &no_variables()), Ok(String::from("--ro-bind")));
}

#[test]
fn expand_empty_placeholder_each_time() {
    assert_eq!(expand("{}", Some("/b"), &no_variables()), Ok(String::from("/b")));
    assert_eq!(expand("a{}b{}c", Some("/b"), &no_variables()), Ok(String::from("a/bb/bc")));
    assert_eq!(expand("{}{}", Some("xy"), &no_variables()), Ok(String::from("xyxy")));
}

#[test]
fn expand_needs_a_path_for_the_empty_placeholder() {
    assert_eq!(expand("a{}", None, &no_variables()), Err(Error::PathUnavailable));
    assert_eq!(Error::PathUnavailable.message(), "build script path is unavailable");
}

#[test]
fn expand_doubled_braces_anywhere() {
    let env = variables(&[("K", "v")]);
    assert_eq!(expand("{{", None, &env), Ok(String::from("{")));
    assert_eq!(expand("}}", None, &env), Ok(String::from("}")));
    assert_eq!(expand("{{}}", None, &env), Ok(String::from("{}")));
    assert_eq!(expand("{K}{{{K}}}", None, &env), Ok(String::from("v{v}")));
    assert_eq!(expand("a{{b}}c", None, &env), Ok(String::from("a{b}c")));
    assert_eq!(expand("{{{{", None, &env), Ok(String::from("{{")));
}

#[test]
fn expand_variables() {
    let env = variables(&[("OUT_DIR", "/out"), ("EMPTY", ""), ("OUT_DIR", "/other")]);
    assert_eq!(expand("{OUT_DIR}", None, &env), Ok(String::from("/out")));
    assert_eq!(expand("x{EMPTY}y", None, &env), Ok(String::from("xy")));
    assert_eq!(expand("{OUT_DIR}:{OUT_DIR}", None, &env), Ok(String::from("/out:/out")));
}

#[test]
fn expand_takes_the_key_up_to_the_first_closing_brace() {
    let env = variables(&[("a{b", "odd")]);
    assert_eq!(expand("{a{b}", None, &env), Ok(String::from("odd")));
    assert_eq!(expand("{a}}", None, &env), Err(Error::VariableNotFound(String::from("a"))));
}

#[test]
fn expand_unknown_variable_names_the_key() {
    for key in ["UNKNOWN", "x", "a b", "OUT_DIR"] {
        let template = format!("pre{{{key}}}post");
        let error = expand(&template, Some("p"), &no_variables()).unwrap_err();
        assert_eq!(error, Error::VariableNotFound(key.to_string()));
        assert!(error.message().contains(key));
        assert_eq!(error.message(), format!("environment variable `{key}` not found"));
    }
}

#[test]
fn expand_unbalanced_braces_name_the_brace() {
    for template in ["{", "a{", "{abc", "a{{b{c", "{{{"] {
        let error = expand(template, Some("p"), &no_variables()).unwrap_err();
        assert_eq!(error, Error::UnbalancedOpen);
        assert_eq!(error.message(), "unbalanced '{'");
    }
    for template in ["}", "a}", "a}b", "{}}", "}}}", "a}{}"] {
        let error = expand(template, Some("p"), &no_variables()).unwrap_err();
        assert_eq!(error, Error::UnbalancedClose);
        assert_eq!(error.message(), "unbalanced '}'");
    }
}

#[test]
fn expand_reports_the_first_failure() {
    assert_eq!(
        expand("{A}{", None, &no_variables()),
        Err(Error::VariableNotFound(String::from("A")))
    );
    assert_eq!(expand("}{A}", None, &no_variables()), Err(Error::UnbalancedClose));
    assert_eq!(expand("{}{A}", None, &no_variables()), Err(Error::PathUnavailable));
}

#[test]
fn expand_private_tmpdir_is_not_read_from_the_variables() {
    let mut env = variables(&[("PRIVATE_TMPDIR", "/from/env")]);
    assert_eq!(
        expand("{PRIVATE_TMPDIR}", None, &env),
        Err(Error::VariableNotFound(String::from("PRIVATE_TMPDIR")))
    );
    env.private_tmpdir = Some(String::from("/private/tmp"));
    assert_eq!(expand("{PRIVATE_TMPDIR}", None, &env), Ok(String::from("/private/tmp")));
}

#[test]
fn expand_profile_path() {
    let mut env = variables(&[("BUILD_WRAP_PROFILE_PATH", "/from/env")]);
    assert_eq!(expand("{BUILD_WRAP_PROFILE_PATH}", None, &env), Ok(String::from("/from/env")));
    env.profile_path = Some(String::from("/tmp/profile"));
    assert_eq!(expand("{BUILD_WRAP_PROFILE_PATH}", None, &env), Ok(String::from("/tmp/profile")));
}

#[test]
fn lookup_follows_expand() {
    let mut env = variables(&[("A", "1"), ("A", "2")]);
    env.private_tmpdir = Some(String::from("/private/t"));
    assert_eq!(env.lookup("A"), Some(&String::from("1")));
    assert_eq!(env.lookup("B"), None);
    assert_eq!(env.lookup("PRIVATE_TMPDIR"), Some(&String::from("/private/t")));
}

#[test]
fn private_tmpdir_lies_under_private() {
    assert_eq!(private_tmpdir(None), None);
    assert_eq!(private_tmpdir(Some("/tmp")), None);
    assert_eq!(private_tmpdir(Some("/privateer/tmp")), None);
    assert_eq!(private_tmpdir(Some("/private")), Some(String::from("/private")));
    assert_eq!(
        private_tmpdir(Some("/private/var/folders/x")),
        Some(String::from("/private/var/folders/x"))
    );
}

#[test]
fn default_profile_expands_without_a_build_script() {
    let mut env = variables(&[("OUT_DIR", "/out"), ("TMPDIR", "/var/tmp")]);
    env.private_tmpdir = Some(String::from("/private/var/tmp"));
    let profile = env.profile().unwrap();
    assert!(profile.starts_with("(version 1)\n(deny default)\n"));
    assert!(profile.contains("(allow file-write* (subpath \"/out\"))"));
    assert!(profile.contains("(allow file-write* (subpath \"/var/tmp\"))"));
    assert!(profile.contains("(allow file-write* (subpath \"/private/var/tmp\"))"));
    assert!(!profile.contains('{'));
    assert_eq!(
        profile,
        DEFAULT_PROFILE
            .replace("{OUT_DIR}", "/out")
            .replace("{TMPDIR}", "/var/tmp")
            .replace("{PRIVATE_TMPDIR}", "/private/var/tmp")
    );
}

#[test]
fn profile_comes_from_the_environment_first() {
    let env = variables(&[("BUILD_WRAP_PROFILE", "(allow {X})"), ("X", "all")]);
    assert_eq!(env.profile(), Ok(String::from("(allow all)")));
    let env = variables(&[("BUILD_WRAP_PROFILE", "run {}")]);
    assert_eq!(env.profile(), Err(Error::PathUnavailable));
    assert_eq!(
        no_variables().profile(),
        Err(Error::VariableNotFound(String::from("OUT_DIR")))
    );
}

#[test]
fn scenario_time_command() {
    let command = split_and_expand(
        Some("time -p {}"),
        "/tmp/x/build_script_build-abcd",
        &no_variables(),
    );
    assert_eq!(command, Ok(strings(&["time", "-p", "/tmp/x/build_script_build-abcd"])));
}

#[test]
fn scenario_unknown_variable() {
    let error = expand("{UNKNOWN}", Some("/b"), &no_variables()).unwrap_err();
    assert!(error.message().contains("environment variable"));
    assert!(error.message().contains("UNKNOWN"));
    let error = split_and_expand(Some("{UNKNOWN}"), "/b", &no_variables()).unwrap_err();
    assert!(error.message().contains("environment variable"));
    assert!(error.message().contains("UNKNOWN"));
}

#[test]
fn split_and_expand_needs_a_template() {
    let error = split_and_expand(None, "/b", &no_variables()).unwrap_err();
    assert_eq!(error, Error::TemplateUndefined);
    assert_eq!(error.message(), "`BUILD_WRAP_CMD` is undefined");
}

#[test]
fn split_and_expand_refuses_an_empty_command() {
    for template in ["", "  ", "\n\t"] {
        let error = split_and_expand(Some(template), "/b", &no_variables()).unwrap_err();
        assert_eq!(error, Error::EmptyCommand);
        assert_eq!(error.message(), "expanded `BUILD_WRAP_CMD` is empty or all whitespace");
    }
}

#[test]
fn split_and_expand_splits_before_it_expands() {
    let env = variables(&[("TWO", "a b")]);
    assert_eq!(split_and_expand(Some("x {TWO} {}"), "p q", &env), Ok(strings(&["x", "a b", "p q"])));
    assert_eq!(split_and_expand(Some("{A} \\"), "p", &env), Err(Error::TrailingBackslash));
    assert_eq!(
        split_and_expand(Some("ok {A} {"), "p", &env),
        Err(Error::VariableNotFound(String::from("A")))
    );
}

#[test]
fn split_and_expand_the_default_command() {
    let env = variables(&[("OUT_DIR", "/out")]);
    assert_eq!(
        split_and_expand(Some(LINUX_DEFAULT_CMD), "/t/build_script_build-1", &env),
        Ok(strings(&[
            "bwrap",
            "--ro-bind",
            "/",
            "/",
            "--dev-bind",
            "/dev",
            "/dev",
            "--bind",
            "/out",
            "/out",
            "--bind",
            "/tmp",
            "/tmp",
            "--unshare-net",
            "/t/build_script_build-1",
        ]))
    );
}

#[test]
fn plain_split_ignores_backslashes() {
    assert_eq!(split_ascii_whitespace(" a\\ b  c "), strings(&["a\\", "b", "c"]));
    assert_eq!(split_ascii_whitespace(""), Vec::<String>::new());
    for template in ["time -p", " a  b\tc\n", LINUX_DEFAULT_CMD] {
        let expected: Vec<String> =
            template.split_ascii_whitespace().map(|w| w.to_string()).collect();
        assert_eq!(split_ascii_whitespace(template), expected);
        assert_eq!(split_escaped(template), Ok(expected));
    }
}

#[test]
fn unwrap_command_appends_the_path() {
    assert_eq!(unwrap_command(Some("time -p"), "/tmp/f"), Ok(strings(&["time", "-p", "/tmp/f"])));
    assert_eq!(unwrap_command(None, "/tmp/f"), Err(Error::TemplateUndefined));
    assert_eq!(unwrap_command(Some("  "), "/tmp/f"), Err(Error::EmptyTemplate));
    assert_eq!(Error::EmptyTemplate.message(), "`BUILD_WRAP_CMD` is empty");
}

/// Writes words as a template: a backslash before each whitespace character and each backslash,
/// and a space between the words.
fn render(words: &[&str]) -> String {
    let escaped: Vec<String> = words
        .iter()
        .map(|word| {
            let mut text = String::new();
            for c in word.chars() {
                if c.is_ascii_whitespace() || c == '\\' {
                    text.push('\\');
                }
                text.push(c);
            }
            text
        })
        .collect();
    escaped.join(" ")
}

#[test]
fn split_of_rendered_words_gives_the_words() {
    let cases: [&[&str]; 6] = [
        &[],
        &["a"],
        &["time", "-p", "{}"],
        &["a b", "c\\d", " ", "\\", "\t\n\r\x0C"],
        &["\\ ", " \\", "\u{e9} \u{e9}"],
        &["--bind", "/my dir/out", "/my dir/out"],
    ];
    for words in cases {
        assert_eq!(split_escaped(&render(words)), Ok(strings(words)), "{words:?}");
    }
    assert_eq!(render(&["a b", "c\\d"]), "a\\ b c\\\\d");
}

#[test]
fn expand_of_doubled_braces_gives_the_text() {
    let env = variables(&[("K", "v")]);
    for text in ["", "plain", "{", "}", "{}", "{K}", "}{", "{{}}", "a{b}c}d{e", "{\u{e9}}"] {
        let doubled = text.replace('{', "{{").replace('}', "}}");
        assert_eq!(expand(&doubled, None, &env), Ok(text.to_string()), "{text:?}");
        assert_eq!(expand(&doubled, Some("p"), &no_variables()), Ok(text.to_string()));
    }
}

#[test]
fn expand_goes_from_left_to_right() {
    let env = variables(&[("K", "v")]);
    for (a, b) in [("", "{K}"), ("x{K}", "y{}"), ("{{", "}}"), ("{}", "{"), ("{K}", "}"), ("a", "{X}")] {
        let first = expand(a, Some("p"), &env).unwrap();
        let whole = expand(&format!("{a}{b}"), Some("p"), &env);
        let rest = expand(b, Some("p"), &env);
        assert_eq!(whole, rest.map(|rest| first + &rest), "{a:?} {b:?}");
    }
}
