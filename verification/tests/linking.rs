use build_wrap::error::Error;
use build_wrap::linking::{
    is_build_script, link, linker, names_build_script, output_path, BUILD_SCRIPT_PREFIX, DEFAULT_LD,
};
use build_wrap::shim::Outcome;

fn strings(words: &[&str]) -> Vec<String> {
    words.iter().map(|w| w.to_string()).collect()
}

#[test]
fn output_path_follows_the_flag() {
    assert_eq!(
        output_path(&strings(&["build-wrap", "a.o", "-o", "/t/out", "-lc"])),
        Some(String::from("/t/out"))
    );
    assert_eq!(output_path(&strings(&["-o", "x"])), Some(String::from("x")));
}

#[test]
fn output_path_first_flag_wins() {
    assert_eq!(
        output_path(&strings(&["cc", "-o", "first", "-o", "second"])),
        Some(String::from("first"))
    );
    assert_eq!(output_path(&strings(&["cc", "-o", "-o", "x"])), Some(String::from("-o")));
}

#[test]
fn output_path_may_be_missing() {
    assert_eq!(output_path(&[]), None);
    assert_eq!(output_path(&strings(&["cc"])), None);
    assert_eq!(output_path(&strings(&["cc", "a.o", "-ofile"])), None);
    assert_eq!(output_path(&strings(&["cc", "a.o", "-o"])), None);
    assert_eq!(output_path(&strings(&["-o"])), None);
}

#[test]
fn build_script_names_of_both_schemes() {
    assert!(is_build_script("/tmp/x/build_script_build-abcd"));
    assert!(is_build_script("target/debug/build/p-0123/build_script_build-0123456789abcdef"));
    assert!(is_build_script("target/debug/build/p-0123/build_script_custom_name-0123456789abcdef"));
    assert!(is_build_script("build_script_main-1"));
    assert!(is_build_script("/t/build_script_"));
}

#[test]
fn build_script_goes_by_the_file_name() {
    assert!(!is_build_script("/build_script_dir/main-abcd"));
    assert!(!is_build_script("build_script_build-abcd/.."));
    assert!(!is_build_script("/t/libfoo-abcd.so"));
    assert!(!is_build_script("/t/build_scrip"));
    assert!(!is_build_script("/t/xbuild_script_build-abcd"));
    assert!(!is_build_script("/"));
    assert!(!is_build_script(""));
    assert!(is_build_script("/t/build_script_build-abcd/"));
}

#[test]
fn build_script_naming_scheme_can_be_chosen() {
    assert!(names_build_script(Some("build_script_build-abcd"), "build_script_build-"));
    assert!(!names_build_script(Some("build_script_custom-abcd"), "build_script_build-"));
    assert!(names_build_script(Some("build_script_custom-abcd"), BUILD_SCRIPT_PREFIX));
    assert!(names_build_script(Some("anything"), ""));
    assert!(!names_build_script(None, ""));
    assert_eq!(BUILD_SCRIPT_PREFIX, "build_script_");
}

#[test]
fn linker_defaults_to_cc() {
    assert_eq!(linker(None), "cc");
    assert_eq!(linker(Some("/usr/bin/clang")), "/usr/bin/clang");
    assert_eq!(linker(Some("")), "");
    assert_eq!(DEFAULT_LD, "cc");
}

#[test]
fn link_forwards_all_but_the_first_argument() {
    let args = strings(&["build-wrap", "-m64", "a.o", "-o", "/t/libfoo.so", "-o", "late"]);
    let plan = link(&args, None, false, false, false);
    assert_eq!(plan.linker, "cc");
    assert_eq!(plan.linker_args, strings(&["-m64", "a.o", "-o", "/t/libfoo.so", "-o", "late"]));
    assert_eq!(plan.wrap, None);
    let plan = link(&[], Some("ld"), false, false, false);
    assert_eq!(plan.linker, "ld");
    assert!(plan.linker_args.is_empty());
    assert_eq!(plan.wrap, None);
}

#[test]
fn link_wraps_build_scripts_only() {
    let args = strings(&["build-wrap", "a.o", "-o", "/t/build_script_build-abcd"]);
    let plan = link(&args, Some("/usr/bin/cc"), false, false, false);
    assert_eq!(plan.linker, "/usr/bin/cc");
    assert_eq!(plan.linker_args, strings(&["a.o", "-o", "/t/build_script_build-abcd"]));
    assert_eq!(plan.wrap, Some(String::from("/t/build_script_build-abcd")));
    let args = strings(&["build-wrap", "a.o", "-o", "/t/main-abcd", "-o", "/t/build_script_build-1"]);
    assert_eq!(link(&args, None, false, false, false).wrap, None);
    let args = strings(&["build-wrap", "a.o"]);
    assert_eq!(link(&args, None, false, false, false).wrap, None);
}

#[test]
fn link_does_not_wrap_under_a_compiler_wrapper() {
    let args = strings(&["build-wrap", "a.o", "-o", "/t/build_script_build-abcd"]);
    assert_eq!(link(&args, None, false, true, false).wrap, None);
    assert_eq!(link(&args, None, false, false, true).wrap, None);
    assert_eq!(link(&args, None, false, true, true).wrap, None);
    assert_eq!(
        link(&args, None, false, true, true).linker_args,
        strings(&["a.o", "-o", "/t/build_script_build-abcd"])
    );
}

#[test]
fn link_does_not_wrap_what_the_configuration_names() {
    let args = strings(&["build-wrap", "a.o", "-o", "/t/build_script_build-abcd"]);
    assert_eq!(link(&args, None, true, false, false).wrap, None);
    assert_eq!(link(&args, None, true, true, true).wrap, None);
    assert_eq!(
        link(&args, None, false, false, false).wrap,
        Some(String::from("/t/build_script_build-abcd"))
    );
}

#[test]
fn nothing_is_wrapped_after_a_link_that_failed() {
    let args = strings(&["build-wrap", "a.o", "-o", "/t/build_script_build-abcd"]);
    let plan = link(&args, None, false, false, false);
    assert_eq!(
        plan.after_link(Outcome::Exited(Some(0))),
        Ok(Some(&String::from("/t/build_script_build-abcd")))
    );
    assert_eq!(plan.after_link(Outcome::Exited(Some(1))), Err(Error::CommandFailed));
    assert_eq!(plan.after_link(Outcome::Exited(None)), Err(Error::CommandFailed));
    assert_eq!(plan.after_link(Outcome::NotStarted), Err(Error::CommandFailed));
    let plan = link(&strings(&["build-wrap", "a.o"]), None, false, false, false);
    assert_eq!(plan.after_link(Outcome::Exited(Some(0))), Ok(None));
}
