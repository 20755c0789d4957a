//! The package that a wrapper is compiled from, and the command that
//! compiles it.

use vstd::prelude::*;
use vstd::string::StringExecFns;
use vstd::utf8::encode_utf8;
use crate::defaults::{default_cmd, LINUX_DEFAULT_CMD, MACOS_DEFAULT_CMD};
use crate::error::{Error, Failure};
use crate::paths::{parent, parent_of};
use crate::text::{text_of_str, texts};

verus! {

/// The manifest of a wrapper's package. Its dependencies are what the
/// run-time part of a wrapper needs.
pub const CARGO_TOML: &'static str = "
[package]
name = \"build_script_wrapper\"
version = \"0.1.0\"
edition = \"2021\"
publish = false

[dependencies]
anyhow = \"1.0\"
build_wrap = \"0.1\"
once_cell = \"1.19\"
tempfile = \"3.10\"
";

/// Where the manifest stands in a wrapper's package.
pub const MANIFEST_PATH: &'static str = "Cargo.toml";

/// Where the source file stands in a wrapper's package.
pub const MAIN_RS_PATH: &'static str = "src/main.rs";

/// Where the compiled wrapper stands in its package.
pub const WRAPPER_PATH: &'static str = "target/debug/build_script_wrapper";

/// What stands before the path of the build script in a wrapper's source.
pub const MAIN_RS_HEAD: &'static str = "
const PATH: &str = \"";

/// What stands after the path of the build script in a wrapper's source.
pub const MAIN_RS_TAIL: &'static str = "\";

fn main() -> Result<()> {
    exec_sibling(PATH)
}
";

/// The source file of the wrapper for the build script that was moved to
/// `sibling`: the run-time part `shim` as it is, a constant that holds
/// `sibling`, and an entry point that hands the constant to the run-time
/// part.
pub open spec fn main_rs_of(shim: Seq<u8>, sibling: Seq<char>) -> Seq<u8> {
    shim + encode_utf8(MAIN_RS_HEAD@) + encode_utf8(sibling) + encode_utf8(MAIN_RS_TAIL@)
}

fn append_bytes(out: &mut Vec<u8>, bytes: &[u8])
    ensures
        final(out)@ == old(out)@ + bytes@,
{
    let mut i: usize = 0;
    while i < bytes.len()
        invariant
            i <= bytes.len(),
            out@ == old(out)@ + bytes@.subrange(0, i as int),
        decreases bytes.len() - i,
    {
        out.push(bytes[i]);
        assert(bytes@.subrange(0, i + 1) =~= bytes@.subrange(0, i as int).push(bytes@[i as int]));
        i += 1;
    }
    assert(bytes@.subrange(0, i as int) =~= bytes@);
}

/// Writes the source file of a wrapper. `shim_source` is the source of the
/// run-time part, and `sibling_path_as_str` is where the build script that
/// the wrapper stands for has been moved to.
pub fn main_rs(shim_source: &[u8], sibling_path_as_str: &str) -> (r: Vec<u8>)
    ensures
        r@ == main_rs_of(shim_source@, sibling_path_as_str@),
{
    let mut out: Vec<u8> = Vec::new();
    append_bytes(&mut out, shim_source);
    append_bytes(&mut out, MAIN_RS_HEAD.as_bytes());
    append_bytes(&mut out, sibling_path_as_str.as_bytes());
    append_bytes(&mut out, MAIN_RS_TAIL.as_bytes());
    out
}

/// Where the path of the build script begins in a wrapper's source.
pub open spec fn path_offset(shim: Seq<u8>) -> int {
    (shim.len() + encode_utf8(MAIN_RS_HEAD@).len()) as int
}

/// A wrapper's source begins with the run-time part, byte for byte, and
/// holds the path of the build script, as it is, at a place that depends on
/// the run-time part alone.
pub proof fn theorem_main_rs_keeps_shim(shim: Seq<u8>, sibling: Seq<char>)
    ensures
        shim.is_prefix_of(main_rs_of(shim, sibling)),
        main_rs_of(shim, sibling).len() == path_offset(shim) + encode_utf8(sibling).len()
            + encode_utf8(MAIN_RS_TAIL@).len(),
        main_rs_of(shim, sibling).subrange(
            path_offset(shim),
            path_offset(shim) + encode_utf8(sibling).len(),
        ) == encode_utf8(sibling),
{
    let whole = main_rs_of(shim, sibling);
    assert(whole.subrange(0, shim.len() as int) =~= shim);
    assert(whole.subrange(path_offset(shim), path_offset(shim) + encode_utf8(sibling).len())
        =~= encode_utf8(sibling));
}

/// A command: a program, what it is handed, and how its environment
/// differs from the caller's.
pub struct BuildCommand {
    pub program: String,
    pub args: Vec<String>,
    /// Variables that are set, as pairs of name and value.
    pub envs: Vec<(String, String)>,
    /// Variables that are taken out.
    pub env_removals: Vec<String>,
}

/// The mathematical value of a [`BuildCommand`].
pub struct Invocation {
    pub program: Seq<char>,
    pub args: Seq<Seq<char>>,
    pub envs: Seq<(Seq<char>, Seq<char>)>,
    pub env_removals: Seq<Seq<char>>,
}

/// The character sequences of a list of pairs of strings.
pub open spec fn pairs(v: Seq<(String, String)>) -> Seq<(Seq<char>, Seq<char>)> {
    Seq::new(v.len(), |k: int| (v[k].0@, v[k].1@))
}

impl View for BuildCommand {
    type V = Invocation;

    open spec fn view(&self) -> Invocation {
        Invocation {
            program: self.program@,
            args: texts(self.args@),
            envs: pairs(self.envs@),
            env_removals: texts(self.env_removals@),
        }
    }
}

/// The build tool's name where the environment names none.
pub const DEFAULT_CARGO: &'static str = "cargo";

/// A verbose build by `cargo`, or by the build tool of the caller's choice,
/// that shows what the linker prints.
pub open spec fn cargo_build_of(cargo: Option<Seq<char>>) -> Invocation {
    Invocation {
        program: match cargo {
            Some(cargo) => cargo,
            None => DEFAULT_CARGO@,
        },
        args: seq!["build"@, "-vv"@],
        envs: seq![("RUSTC_LOG"@, "rustc_codegen_ssa::back::link=info"@)],
        env_removals: Seq::empty(),
    }
}

/// The command that builds a package and shows what its build scripts and
/// the linker print. `cargo` is the build tool that the environment names,
/// if any.
pub fn cargo_build(cargo: Option<&str>) -> (command: BuildCommand)
    ensures
        command@ == cargo_build_of(text_of_str(cargo)),
{
    let program = match cargo {
        Some(cargo) => cargo.to_owned(),
        None => DEFAULT_CARGO.to_owned(),
    };
    let mut args: Vec<String> = Vec::new();
    args.push("build".to_owned());
    args.push("-vv".to_owned());
    let mut envs: Vec<(String, String)> = Vec::new();
    envs.push(("RUSTC_LOG".to_owned(), "rustc_codegen_ssa::back::link=info".to_owned()));
    let command = BuildCommand { program, args, envs, env_removals: Vec::new() };
    assert(command@.args =~= cargo_build_of(text_of_str(cargo)).args);
    assert(command@.envs =~= cargo_build_of(text_of_str(cargo)).envs);
    assert(command@.env_removals =~= cargo_build_of(text_of_str(cargo)).env_removals);
    command
}

/// The setting that makes the build tool link with `linker`.
pub open spec fn linker_setting(linker: Seq<char>) -> Seq<char> {
    "target.'cfg(all())'.linker = '"@ + linker + "'"@
}

/// The command that compiles a wrapper: a build that links with `linker`
/// whatever the configuration says, that runs without a compiler wrapper,
/// and that fixes the sandbox command to the default one where the
/// environment sets none.
pub open spec fn wrapper_build_of(
    linker: Seq<char>,
    cargo: Option<Seq<char>>,
    cmd_is_set: bool,
    linux: bool,
) -> Invocation {
    let plain = cargo_build_of(cargo);
    Invocation {
        program: plain.program,
        args: plain.args + seq!["--config"@, linker_setting(linker)],
        envs: if cmd_is_set {
            plain.envs
        } else {
            plain.envs.push(
                (
                    "BUILD_WRAP_CMD"@,
                    if linux {
                        LINUX_DEFAULT_CMD@
                    } else {
                        MACOS_DEFAULT_CMD@
                    },
                ),
            )
        },
        env_removals: seq!["RUSTC_WRAPPER"@, "RUSTC_WORKSPACE_WRAPPER"@],
    }
}

/// The command that compiles a wrapper. `linker` is the linker that did the
/// real link; the wrapper is linked with it, and so is never wrapped
/// itself. `cargo` is the build tool that the environment names, if any;
/// `cmd_is_set` says whether the environment sets a sandbox command, and
/// `linux` whether the target is Linux.
pub fn wrapper_build(linker: &str, cargo: Option<&str>, cmd_is_set: bool, linux: bool) -> (command:
    BuildCommand)
    ensures
        command@ == wrapper_build_of(linker@, text_of_str(cargo), cmd_is_set, linux),
{
    let mut command = cargo_build(cargo);
    assert(texts(command.env_removals@).len() == 0);
    if !cmd_is_set {
        command.envs.push(("BUILD_WRAP_CMD".to_owned(), default_cmd(linux).to_owned()));
    }
    let mut setting = String::from_str("target.'cfg(all())'.linker = '");
    setting.append(linker);
    setting.append("'");
    command.args.push("--config".to_owned());
    command.args.push(setting);
    command.env_removals.push("RUSTC_WRAPPER".to_owned());
    command.env_removals.push("RUSTC_WORKSPACE_WRAPPER".to_owned());
    let ghost goal = wrapper_build_of(linker@, text_of_str(cargo), cmd_is_set, linux);
    assert(command@.args =~= goal.args);
    assert(command@.envs =~= goal.envs);
    assert(command@.env_removals =~= goal.env_removals);
    command
}

/// The directory in which the build script at `build_script_path` lies, and
/// in which it is moved aside.
pub fn sibling_directory(build_script_path: &str) -> (r: Result<String, Error>)
    ensures
        match r {
            Ok(directory) => parent_of(build_script_path@) == Some(directory@),
            Err(e) => parent_of(build_script_path@) is None && e@ == Failure::NoParent,
        },
{
    match parent(build_script_path) {
        Some(directory) => Ok(directory),
        None => Err(Error::NoParent),
    }
}

} // verus!
