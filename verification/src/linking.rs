//! What the linker replacement decides: which linker does the real work,
//! what it is handed, and whether the file it wrote is a build script that
//! is then to be wrapped.

use vstd::prelude::*;
use crate::error::{Error, Failure};
use crate::paths::{file_name, file_name_of};
use crate::shim::Outcome;
use crate::text::{has_prefix, same_text, text_of, text_of_ref, text_of_str, texts};

verus! {

/// The linker that is used unless another is named.
pub const DEFAULT_LD: &'static str = "cc";

/// What the file names of build scripts begin with.
pub const BUILD_SCRIPT_PREFIX: &'static str = "build_script_";

/// Whether `arg` is the flag that announces the output path.
pub open spec fn is_output_flag(arg: Seq<char>) -> bool {
    arg == "-o"@
}

/// Whether `i` is the place of an output flag that an argument follows.
pub open spec fn announces_output(args: Seq<Seq<char>>, i: int) -> bool {
    0 <= i < args.len() - 1 && is_output_flag(args[i])
}

/// The output path among `args[i..]`.
pub open spec fn output_from(args: Seq<Seq<char>>, i: int) -> Option<Seq<char>>
    decreases args.len() - i,
{
    if i < 0 || i + 1 >= args.len() {
        None
    } else if is_output_flag(args[i]) {
        Some(args[i + 1])
    } else {
        output_from(args, i + 1)
    }
}

/// The path that a link with these arguments writes to: the argument after
/// the first `-o` that an argument follows.
pub open spec fn output_of(args: Seq<Seq<char>>) -> Option<Seq<char>> {
    output_from(args, 0)
}

proof fn lemma_output_from(args: Seq<Seq<char>>, i: int)
    requires
        0 <= i,
    ensures
        match output_from(args, i) {
            Some(path) => exists|k: int|
                #![trigger announces_output(args, k)]
                i <= k && announces_output(args, k) && path == args[k + 1] && forall|j: int|
                    i <= j < k ==> !announces_output(args, j),
            None => forall|k: int| i <= k ==> !announces_output(args, k),
        },
    decreases args.len() - i,
{
    if i + 1 < args.len() {
        if is_output_flag(args[i]) {
            assert(announces_output(args, i));
        } else {
            lemma_output_from(args, i + 1);
            match output_from(args, i + 1) {
                Some(path) => {
                    let k = choose|k: int|
                        #![trigger announces_output(args, k)]
                        i + 1 <= k && announces_output(args, k) && path == args[k + 1] && forall|
                            j: int,
                        |
                            i + 1 <= j < k ==> !announces_output(args, j);
                    assert(announces_output(args, k));
                    assert forall|j: int| i <= j < k implies !announces_output(args, j) by {
                        if j > i {
                        }
                    }
                },
                None => {},
            }
        }
    }
}

/// The first `-o` wins: the output path is the argument after the first
/// `-o` that an argument follows, and there is none exactly if no `-o` is
/// followed by an argument.
pub proof fn theorem_first_output(args: Seq<Seq<char>>)
    ensures
        match output_of(args) {
            Some(path) => exists|k: int|
                #![trigger announces_output(args, k)]
                announces_output(args, k) && path == args[k + 1] && forall|j: int|
                    0 <= j < k ==> !announces_output(args, j),
            None => forall|k: int| !announces_output(args, k),
        },
{
    lemma_output_from(args, 0);
    match output_of(args) {
        Some(path) => {
            let k = choose|k: int|
                #![trigger announces_output(args, k)]
                0 <= k && announces_output(args, k) && path == args[k + 1] && forall|j: int|
                    0 <= j < k ==> !announces_output(args, j);
            assert(announces_output(args, k));
        },
        None => {},
    }
}

/// The path that the linker writes to: the argument after the first `-o`
/// that an argument follows. Later ones are not looked at.
pub fn output_path(args: &[String]) -> (r: Option<String>)
    ensures
        text_of(r) == output_of(texts(args@)),
{
    let mut i: usize = 0;
    while args.len() - i > 1
        invariant
            i <= args.len(),
            output_of(texts(args@)) == output_from(texts(args@), i as int),
        decreases args.len() - i,
    {
        if same_text(args[i].as_str(), "-o") {
            return Some(args[i + 1].clone());
        }
        i += 1;
    }
    None
}

/// Whether a file with this name is a build script under the naming scheme
/// that `prefix` stands for: there is a name, and it begins with `prefix`.
pub open spec fn is_build_script_name(name: Option<Seq<char>>, prefix: Seq<char>) -> bool {
    name matches Some(name) && prefix.is_prefix_of(name)
}

/// Whether a file with this name is a build script under the naming scheme
/// that `prefix` stands for.
pub fn names_build_script(name: Option<&str>, prefix: &str) -> (r: bool)
    ensures
        r == is_build_script_name(text_of_str(name), prefix@),
{
    match name {
        Some(name) => has_prefix(name, prefix),
        None => false,
    }
}

/// Whether the file at `path` is a build script: whether its file name
/// begins with [`BUILD_SCRIPT_PREFIX`].
pub fn is_build_script(path: &str) -> (r: bool)
    ensures
        r == is_build_script_name(file_name_of(path@), BUILD_SCRIPT_PREFIX@),
{
    match file_name(path) {
        Some(name) => names_build_script(Some(name.as_str()), BUILD_SCRIPT_PREFIX),
        None => names_build_script(None, BUILD_SCRIPT_PREFIX),
    }
}

/// The linker that does the real work: the one that `build_wrap_ld` names,
/// or [`DEFAULT_LD`].
pub fn linker(build_wrap_ld: Option<&str>) -> (r: String)
    ensures
        r@ == match build_wrap_ld {
            Some(ld) => ld@,
            None => DEFAULT_LD@,
        },
{
    match build_wrap_ld {
        Some(ld) => ld.to_owned(),
        None => DEFAULT_LD.to_owned(),
    }
}

/// The arguments without the first, which names the program itself.
pub open spec fn forwarded(args: Seq<Seq<char>>) -> Seq<Seq<char>> {
    if args.len() == 0 {
        args
    } else {
        args.subrange(1, args.len() as int)
    }
}

/// What one run of the linker replacement does.
pub struct LinkPlan {
    /// The program that links.
    pub linker: String,
    /// What it is handed: the arguments that were received, but for the
    /// first.
    pub linker_args: Vec<String>,
    /// The build script that is wrapped once the link has succeeded, if the
    /// link writes one and wrapping is permitted.
    pub wrap: Option<String>,
}

/// Whether a build script may be wrapped: the configuration does not name
/// its directory or package, and no compiler wrapper is active, which would
/// mean that a tool such as a linter drives the build.
pub open spec fn may_wrap(allowed: bool, rustc_wrapper: bool, rustc_workspace_wrapper: bool) -> bool {
    !allowed && !rustc_wrapper && !rustc_workspace_wrapper
}

/// The build script to wrap after a link that writes to `output`: the
/// output, if there is one, it is a build script and wrapping is permitted.
pub open spec fn wrap_target(output: Option<Seq<char>>, permitted: bool) -> Option<Seq<char>> {
    match output {
        Some(path) => if permitted && is_build_script_name(
            file_name_of(path),
            BUILD_SCRIPT_PREFIX@,
        ) {
            Some(path)
        } else {
            None
        },
        None => None,
    }
}

/// Decides what to do for the arguments that the linker replacement was
/// called with. `build_wrap_ld` is the linker that the environment names, if
/// any. `allowed` says whether the configuration names the directory or the
/// package that is built; `rustc_wrapper` and `rustc_workspace_wrapper` say
/// whether a compiler wrapper is set. Each of the three stands against
/// wrapping.
pub fn link(
    args: &[String],
    build_wrap_ld: Option<&str>,
    allowed: bool,
    rustc_wrapper: bool,
    rustc_workspace_wrapper: bool,
) -> (plan: LinkPlan)
    ensures
        plan.linker@ == match build_wrap_ld {
            Some(ld) => ld@,
            None => DEFAULT_LD@,
        },
        texts(plan.linker_args@) == forwarded(texts(args@)),
        text_of(plan.wrap) == wrap_target(
            output_of(texts(args@)),
            may_wrap(allowed, rustc_wrapper, rustc_workspace_wrapper),
        ),
{
    let linker = linker(build_wrap_ld);
    let mut linker_args: Vec<String> = Vec::new();
    let mut i: usize = 1;
    while i < args.len()
        invariant
            1 <= i,
            i <= args.len() || args.len() == 0,
            args.len() > 0 ==> texts(linker_args@) == texts(args@).subrange(1, i as int),
            args.len() == 0 ==> linker_args@.len() == 0,
        decreases args.len() - i,
    {
        let ghost before = texts(linker_args@);
        linker_args.push(args[i].clone());
        assert(texts(linker_args@) =~= before.push(args@[i as int]@));
        assert(texts(args@).subrange(1, i + 1) =~= texts(args@).subrange(1, i as int).push(
            args@[i as int]@,
        ));
        i += 1;
    }
    let permitted = !allowed && !rustc_wrapper && !rustc_workspace_wrapper;
    let wrap = match output_path(args) {
        Some(path) => {
            if permitted && is_build_script(path.as_str()) {
                Some(path)
            } else {
                None
            }
        },
        None => None,
    };
    LinkPlan { linker, linker_args, wrap }
}

impl LinkPlan {
    /// What follows the real link: nothing is wrapped unless the link has
    /// succeeded, and a link that failed fails the whole run.
    pub fn after_link(&self, outcome: Outcome) -> (r: Result<Option<&String>, Error>)
        ensures
            match r {
                Ok(wrap) => outcome.is_success() && text_of_ref(wrap) == text_of(self.wrap),
                Err(e) => !outcome.is_success() && e@ == Failure::CommandFailed,
            },
    {
        if outcome.success() {
            Ok(self.wrap.as_ref())
        } else {
            Err(Error::CommandFailed)
        }
    }
}

} // verus!
