use build_wrap::defaults::{default_cmd, LINUX_DEFAULT_CMD, MACOS_DEFAULT_CMD};
use build_wrap::error::Error;
use build_wrap::synthesis::{Reply, Request, Stage, Synthesis};
use build_wrap::wrapper::{
    cargo_build, main_rs, sibling_directory, wrapper_build, CARGO_TOML, WRAPPER_PATH,
};

fn strings(words: &[&str]) -> Vec<String> {
    words.iter().map(|w| w.to_string()).collect()
}

const SHIM: &[u8] = b"fn exec_sibling(path: &str) -> Result<()> { run(path) }\n";
const SCRIPT: &str = "/t/debug/build/p-1/build_script_build-abcd";
const SIBLING: &str = "/t/debug/build/p-1/.tmp1a2B3c";

fn synthesis() -> Synthesis {
    Synthesis::new(
        String::from("/usr/bin/cc"),
        String::from(SCRIPT),
        SHIM.to_vec(),
        None,
        false,
        true,
    )
}

fn request_name(request: &Request) -> &'static str {
    match request {
        Request::CreateSibling(_) => "create",
        Request::Rename { .. } => "rename",
        Request::WritePackage { .. } => "write",
        Request::Build { .. } => "build",
        Request::Install { .. } => "install",
        Request::Finish => "finish",
        Request::Abort(_) => "abort",
    }
}

#[test]
fn main_rs_holds_shim_path_and_entry_point() {
    let expected = "fn exec_sibling(path: &str) -> Result<()> { run(path) }\n\
\nconst PATH: &str = \"/t/debug/build/p-1/.tmp1a2B3c\";\n\
\nfn main() -> Result<()> {\n    exec_sibling(PATH)\n}\n";
    assert_eq!(main_rs(SHIM, SIBLING), expected.as_bytes());
}

#[test]
fn main_rs_keeps_the_shim_byte_for_byte() {
    let shim: Vec<u8> = (0..=255).collect();
    let source = main_rs(&shim, "p");
    assert_eq!(&source[..256], &shim[..]);
    assert_eq!(&source[256..], "\nconst PATH: &str = \"p\";\n\nfn main() -> Result<()> {\n    exec_sibling(PATH)\n}\n".as_bytes());
    assert_eq!(main_rs(&[], ""), "\nconst PATH: &str = \"\";\n\nfn main() -> Result<()> {\n    exec_sibling(PATH)\n}\n".as_bytes());
}

#[test]
fn main_rs_writes_the_path_as_utf8() {
    let source = main_rs(b"", "/t/\u{e9}");
    assert_eq!(
        String::from_utf8(source).unwrap(),
        "\nconst PATH: &str = \"/t/\u{e9}\";\n\nfn main() -> Result<()> {\n    exec_sibling(PATH)\n}\n"
    );
}

#[test]
fn manifest_names_the_wrapper() {
    assert!(CARGO_TOML.contains("name = \"build_script_wrapper\""));
    assert!(CARGO_TOML.contains("[dependencies]"));
    assert!(WRAPPER_PATH.ends_with("/build_script_wrapper"));
    assert_eq!(WRAPPER_PATH, "target/debug/build_script_wrapper");
}

#[test]
fn sibling_directory_is_the_parent() {
    assert_eq!(sibling_directory(SCRIPT), Ok(String::from("/t/debug/build/p-1")));
    assert_eq!(sibling_directory("build_script_build-abcd"), Ok(String::new()));
    assert_eq!(sibling_directory("/"), Err(Error::NoParent));
    assert_eq!(sibling_directory(""), Err(Error::NoParent));
    assert_eq!(Error::NoParent.message(), "failed to get `build_script_path` parent");
}

#[test]
fn cargo_build_is_verbose() {
    let command = cargo_build(None);
    assert_eq!(command.program, "cargo");
    assert_eq!(command.args, strings(&["build", "-vv"]));
    assert_eq!(
        command.envs,
        vec![(String::from("RUSTC_LOG"), String::from("rustc_codegen_ssa::back::link=info"))]
    );
    assert!(command.env_removals.is_empty());
    assert_eq!(cargo_build(Some("/opt/cargo")).program, "/opt/cargo");
}

#[test]
fn wrapper_build_links_with_the_real_linker() {
    let command = wrapper_build("/usr/bin/cc", None, true, true);
    assert_eq!(command.program, "cargo");
    assert_eq!(
        command.args,
        strings(&["build", "-vv", "--config", "target.'cfg(all())'.linker = '/usr/bin/cc'"])
    );
    assert_eq!(
        command.envs,
        vec![(String::from("RUSTC_LOG"), String::from("rustc_codegen_ssa::back::link=info"))]
    );
    assert_eq!(command.env_removals, strings(&["RUSTC_WRAPPER", "RUSTC_WORKSPACE_WRAPPER"]));
}

#[test]
fn wrapper_build_fixes_the_default_command() {
    let command = wrapper_build("cc", Some("/opt/cargo"), false, true);
    assert_eq!(command.program, "/opt/cargo");
    assert_eq!(command.args[3], "target.'cfg(all())'.linker = 'cc'");
    assert_eq!(
        command.envs,
        vec![
            (String::from("RUSTC_LOG"), String::from("rustc_codegen_ssa::back::link=info")),
            (String::from("BUILD_WRAP_CMD"), String::from(LINUX_DEFAULT_CMD)),
        ]
    );
    let command = wrapper_build("cc", None, false, false);
    assert_eq!(command.envs[1], (String::from("BUILD_WRAP_CMD"), String::from(MACOS_DEFAULT_CMD)));
    assert_eq!(default_cmd(true), LINUX_DEFAULT_CMD);
    assert_eq!(default_cmd(false), MACOS_DEFAULT_CMD);
}

#[test]
fn synthesis_goes_through_its_steps() {
    let mut synthesis = synthesis();
    assert_eq!(synthesis.stage, Stage::Started);

    match synthesis.begin() {
        Request::CreateSibling(directory) => assert_eq!(directory, "/t/debug/build/p-1"),
        other => panic!("unexpected request: {}", request_name(&other)),
    }
    assert_eq!(synthesis.stage, Stage::Creating);

    match synthesis.advance(Reply::Path(String::from(SIBLING))) {
        Request::Rename { from, to } => {
            assert_eq!(from, SCRIPT);
            assert_eq!(to, SIBLING);
        }
        other => panic!("unexpected request: {}", request_name(&other)),
    }
    assert_eq!(synthesis.stage, Stage::Renaming);
    assert_eq!(synthesis.sibling_path.as_deref(), Some(SIBLING));

    match synthesis.advance(Reply::Done) {
        Request::WritePackage { manifest, main_rs: source } => {
            assert_eq!(manifest, CARGO_TOML);
            assert_eq!(source, main_rs(SHIM, SIBLING));
        }
        other => panic!("unexpected request: {}", request_name(&other)),
    }
    assert_eq!(synthesis.stage, Stage::Writing);

    match synthesis.advance(Reply::Path(String::from("/tmp/.tmpPkg"))) {
        Request::Build { command, directory } => {
            assert_eq!(directory, "/tmp/.tmpPkg");
            assert_eq!(command.program, "cargo");
            assert_eq!(
                command.args,
                strings(&["build", "-vv", "--config", "target.'cfg(all())'.linker = '/usr/bin/cc'"])
            );
            assert_eq!(command.envs[1].0, "BUILD_WRAP_CMD");
            assert_eq!(command.envs[1].1, LINUX_DEFAULT_CMD);
        }
        other => panic!("unexpected request: {}", request_name(&other)),
    }
    assert_eq!(synthesis.stage, Stage::Building);

    match synthesis.advance(Reply::Done) {
        Request::Install { directory, from, to } => {
            assert_eq!(directory, "/tmp/.tmpPkg");
            assert_eq!(from, "target/debug/build_script_wrapper");
            assert_eq!(to, SCRIPT);
        }
        other => panic!("unexpected request: {}", request_name(&other)),
    }
    assert_eq!(synthesis.stage, Stage::Installing);

    assert_eq!(request_name(&synthesis.advance(Reply::Done)), "finish");
    assert_eq!(synthesis.stage, Stage::Installed);
    assert_eq!(request_name(&synthesis.advance(Reply::Failed)), "finish");
    assert_eq!(synthesis.stage, Stage::Installed);
}

#[test]
fn synthesis_stops_at_the_first_failure() {
    let replies = [
        Reply::Path(String::from(SIBLING)),
        Reply::Done,
        Reply::Path(String::from("/tmp/.tmpPkg")),
        Reply::Done,
        Reply::Done,
    ];
    for failing in 0..replies.len() {
        let mut synthesis = synthesis();
        let mut requests = vec![request_name(&synthesis.begin())];
        for (step, reply) in replies.iter().enumerate() {
            let reply = if step == failing {
                Reply::Failed
            } else {
                match reply {
                    Reply::Path(path) => Reply::Path(path.clone()),
                    Reply::Done => Reply::Done,
                    Reply::Failed => Reply::Failed,
                }
            };
            requests.push(request_name(&synthesis.advance(reply)));
        }
        let expected = ["create", "rename", "write", "build", "install"];
        assert_eq!(&requests[..=failing], &expected[..=failing]);
        assert!(requests[failing + 1..].iter().all(|name| *name == "abort"));
        assert_eq!(synthesis.stage, Stage::Failed);
        // The wrapper is installed only when every earlier step was done.
        assert_eq!(requests.contains(&"install"), failing == 4);
    }
}

#[test]
fn synthesis_stops_at_a_reply_that_does_not_fit() {
    let mut synthesis = synthesis();
    synthesis.begin();
    assert_eq!(request_name(&synthesis.advance(Reply::Done)), "abort");
    assert_eq!(synthesis.stage, Stage::Failed);

    let mut synthesis = self::synthesis();
    assert_eq!(request_name(&synthesis.advance(Reply::Done)), "abort");
    assert_eq!(synthesis.stage, Stage::Failed);
    assert_eq!(request_name(&synthesis.begin()), "abort");
}

#[test]
fn synthesis_needs_a_directory() {
    let mut synthesis =
        Synthesis::new(String::from("cc"), String::from("/"), Vec::new(), None, true, true);
    match synthesis.begin() {
        Request::Abort(Some(error)) => assert_eq!(error, Error::NoParent),
        other => panic!("unexpected request: {}", request_name(&other)),
    }
    assert_eq!(synthesis.stage, Stage::Failed);
}

/// Carries out a request on files that are kept in memory.
fn carry_out(
    files: &mut std::collections::BTreeMap<String, Vec<u8>>,
    request: &Request,
    fails: bool,
) -> Reply {
    if fails {
        return Reply::Failed;
    }
    match request {
        Request::CreateSibling(directory) => {
            let sibling = format!("{directory}/.tmp1a2B3c");
            files.insert(sibling.clone(), Vec::new());
            Reply::Path(sibling)
        }
        Request::Rename { from, to } => match files.remove(from) {
            Some(content) => {
                files.insert(to.clone(), content);
                Reply::Done
            }
            None => Reply::Failed,
        },
        Request::WritePackage { manifest, main_rs } => {
            files.insert(String::from("/tmp/.tmpPkg/Cargo.toml"), manifest.clone().into_bytes());
            files.insert(String::from("/tmp/.tmpPkg/src/main.rs"), main_rs.clone());
            Reply::Path(String::from("/tmp/.tmpPkg"))
        }
        Request::Build { directory, .. } => {
            files.insert(format!("{directory}/{WRAPPER_PATH}"), b"wrapper".to_vec());
            Reply::Done
        }
        Request::Install { directory, from, to } => match files.get(&format!("{directory}/{from}")) {
            Some(content) => {
                let content = content.clone();
                files.insert(to.clone(), content);
                Reply::Done
            }
            None => Reply::Failed,
        },
        Request::Finish | Request::Abort(_) => Reply::Done,
    }
}

#[test]
fn synthesis_keeps_the_build_script_byte_for_byte() {
    let content: Vec<u8> = (0..=255).rev().collect();
    for failing in 0..=5 {
        let mut files = std::collections::BTreeMap::new();
        files.insert(String::from(SCRIPT), content.clone());
        let mut synthesis = synthesis();
        let mut request = synthesis.begin();
        for step in 0..5 {
            let reply = carry_out(&mut files, &request, step == failing);
            request = synthesis.advance(reply);
            // At every step the build script is where it was or where it was moved to.
            let at_script = files.get(SCRIPT) == Some(&content);
            let at_sibling = files.get(SIBLING) == Some(&content);
            assert!(at_script != at_sibling);
        }
        if failing == 5 {
            assert_eq!(synthesis.stage, Stage::Installed);
            assert_eq!(files.get(SIBLING), Some(&content));
            assert_eq!(files.get(SCRIPT), Some(&b"wrapper".to_vec()));
        } else {
            assert_eq!(synthesis.stage, Stage::Failed);
            assert_ne!(files.get(SCRIPT), Some(&b"wrapper".to_vec()));
        }
    }
}
