//! How a build script is replaced by its wrapper: the build script is moved
//! aside within its directory, the wrapper is compiled in a directory of its
//! own, and only a wrapper that compiled is copied to where the build script
//! was.
//!
//! The steps touch the file system and run the build tool, so they are left
//! to whoever drives the synthesis. What is decided here is which step comes
//! next, with what, and when to stop.

use vstd::prelude::*;
use vstd::utf8::encode_utf8;
use crate::error::{Error, Failure};
use crate::paths::parent_of;
use crate::wrapper::{
    main_rs, main_rs_of, sibling_directory, wrapper_build, wrapper_build_of, BuildCommand,
    Invocation, CARGO_TOML, MAIN_RS_PATH, MANIFEST_PATH, WRAPPER_PATH,
};
use crate::text::text_of;

verus! {

/// How far a synthesis has come.
#[derive(Debug, Clone, Copy, PartialEq, Eq, Structural)]
pub enum Stage {
    /// Nothing has been done.
    Started,
    /// A file with a name of its own is being created beside the build
    /// script.
    Creating,
    /// The build script is being moved onto that file.
    Renaming,
    /// The wrapper's package is being written.
    Writing,
    /// The wrapper's package is being compiled.
    Building,
    /// The wrapper is being copied to where the build script was.
    Installing,
    /// The wrapper is in place.
    Installed,
    /// A step has failed, and nothing more is done.
    Failed,
}

/// What the driver is asked to do.
pub enum Request {
    /// Create a file with a name of its own in this directory, keep it, and
    /// report its path.
    CreateSibling(String),
    /// Rename the file at `from` to `to`, in one step.
    Rename { from: String, to: String },
    /// Write a package with this manifest and this source file into a new
    /// directory that nobody else uses, and report the directory's path.
    WritePackage { manifest: String, main_rs: Vec<u8> },
    /// Run this command in this directory, and show what it prints.
    Build { command: BuildCommand, directory: String },
    /// Copy the file at `from`, a path within `directory`, to `to`.
    Install { directory: String, from: String, to: String },
    /// Nothing: the wrapper is in place.
    Finish,
    /// Stop: a step has failed, or the build script lies in no directory.
    Abort(Option<Error>),
}

/// The mathematical value of a [`Request`].
pub enum RequestView {
    CreateSibling(Seq<char>),
    Rename { from: Seq<char>, to: Seq<char> },
    WritePackage { manifest: Seq<char>, main_rs: Seq<u8> },
    Build { command: Invocation, directory: Seq<char> },
    Install { directory: Seq<char>, from: Seq<char>, to: Seq<char> },
    Finish,
    Abort(Option<Failure>),
}

impl View for Request {
    type V = RequestView;

    open spec fn view(&self) -> RequestView {
        match self {
            Request::CreateSibling(directory) => RequestView::CreateSibling(directory@),
            Request::Rename { from, to } => RequestView::Rename { from: from@, to: to@ },
            Request::WritePackage { manifest, main_rs } => RequestView::WritePackage {
                manifest: manifest@,
                main_rs: main_rs@,
            },
            Request::Build { command, directory } => RequestView::Build {
                command: command@,
                directory: directory@,
            },
            Request::Install { directory, from, to } => RequestView::Install {
                directory: directory@,
                from: from@,
                to: to@,
            },
            Request::Finish => RequestView::Finish,
            Request::Abort(e) => RequestView::Abort(
                match e {
                    Some(e) => Some(e@),
                    None => None,
                },
            ),
        }
    }
}

/// What the driver reports of the step that it was asked for.
pub enum Reply {
    /// The step failed.
    Failed,
    /// The step was done.
    Done,
    /// The step was done, and this is the path that was asked for.
    Path(String),
}

/// The mathematical value of a [`Reply`].
pub enum ReplyView {
    Failed,
    Done,
    Path(Seq<char>),
}

impl View for Reply {
    type V = ReplyView;

    open spec fn view(&self) -> ReplyView {
        match self {
            Reply::Failed => ReplyView::Failed,
            Reply::Done => ReplyView::Done,
            Reply::Path(path) => ReplyView::Path(path@),
        }
    }
}

/// The synthesis of one wrapper.
pub struct Synthesis {
    pub stage: Stage,
    /// The linker that did the real link.
    pub linker: String,
    /// Where the build script was written, and where the wrapper goes.
    pub build_script_path: String,
    /// The source of the run-time part of a wrapper.
    pub shim_source: Vec<u8>,
    /// The build tool that the environment names, if any.
    pub cargo: Option<String>,
    /// Whether the environment sets a sandbox command.
    pub cmd_is_set: bool,
    /// Whether the target is Linux.
    pub linux: bool,
    /// Where the build script has been moved to, once that is known.
    pub sibling_path: Option<String>,
    /// Where the wrapper's package is, once that is known.
    pub package_directory: Option<String>,
}

/// The mathematical value of a [`Synthesis`].
pub struct Pipeline {
    pub stage: Stage,
    pub linker: Seq<char>,
    pub build_script_path: Seq<char>,
    pub shim_source: Seq<u8>,
    pub cargo: Option<Seq<char>>,
    pub cmd_is_set: bool,
    pub linux: bool,
    pub sibling_path: Option<Seq<char>>,
    pub package_directory: Option<Seq<char>>,
}

impl View for Synthesis {
    type V = Pipeline;

    open spec fn view(&self) -> Pipeline {
        Pipeline {
            stage: self.stage,
            linker: self.linker@,
            build_script_path: self.build_script_path@,
            shim_source: self.shim_source@,
            cargo: text_of(self.cargo),
            cmd_is_set: self.cmd_is_set,
            linux: self.linux,
            sibling_path: text_of(self.sibling_path),
            package_directory: text_of(self.package_directory),
        }
    }
}

impl Pipeline {
    /// This synthesis at another stage.
    pub open spec fn at(self, stage: Stage) -> Pipeline {
        Pipeline { stage, ..self }
    }

    /// This synthesis, stopped.
    pub open spec fn stopped(self, failure: Option<Failure>) -> (Pipeline, RequestView) {
        (self.at(Stage::Failed), RequestView::Abort(failure))
    }

    /// The command that compiles the wrapper.
    pub open spec fn build(self) -> Invocation {
        wrapper_build_of(self.linker, self.cargo, self.cmd_is_set, self.linux)
    }

    /// The first step: a file is created in the directory of the build
    /// script. There is no such step where the build script lies in no
    /// directory.
    pub open spec fn begun(self) -> (Pipeline, RequestView) {
        if self.stage != Stage::Started {
            self.stopped(None)
        } else {
            match parent_of(self.build_script_path) {
                Some(directory) => (
                    self.at(Stage::Creating),
                    RequestView::CreateSibling(directory),
                ),
                None => self.stopped(Some(Failure::NoParent)),
            }
        }
    }

    /// The step after the one that `reply` reports. A step that failed, and
    /// a report that does not fit the step, stop the synthesis.
    pub open spec fn advanced(self, reply: ReplyView) -> (Pipeline, RequestView) {
        match (self.stage, reply) {
            (Stage::Creating, ReplyView::Path(sibling)) => (
                Pipeline { stage: Stage::Renaming, sibling_path: Some(sibling), ..self },
                RequestView::Rename { from: self.build_script_path, to: sibling },
            ),
            (Stage::Renaming, ReplyView::Done) => match self.sibling_path {
                Some(sibling) => (
                    self.at(Stage::Writing),
                    RequestView::WritePackage {
                        manifest: CARGO_TOML@,
                        main_rs: main_rs_of(self.shim_source, sibling),
                    },
                ),
                None => self.stopped(None),
            },
            (Stage::Writing, ReplyView::Path(directory)) => (
                Pipeline { stage: Stage::Building, package_directory: Some(directory), ..self },
                RequestView::Build { command: self.build(), directory },
            ),
            (Stage::Building, ReplyView::Done) => match self.package_directory {
                Some(directory) => (
                    self.at(Stage::Installing),
                    RequestView::Install {
                        directory,
                        from: WRAPPER_PATH@,
                        to: self.build_script_path,
                    },
                ),
                None => self.stopped(None),
            },
            (Stage::Installing, ReplyView::Done) => (
                self.at(Stage::Installed),
                RequestView::Finish,
            ),
            (Stage::Installed, _) => (self, RequestView::Finish),
            _ => self.stopped(None),
        }
    }
}

impl Synthesis {
    /// The synthesis of a wrapper for the build script at
    /// `build_script_path`, with nothing done yet. `linker` is the linker
    /// that did the real link, `shim_source` the source of the run-time part.
    /// `cargo` is the build tool that the environment names, if any;
    /// `cmd_is_set` says whether the environment sets a sandbox command, and
    /// `linux` whether the target is Linux.
    pub fn new(
        linker: String,
        build_script_path: String,
        shim_source: Vec<u8>,
        cargo: Option<String>,
        cmd_is_set: bool,
        linux: bool,
    ) -> (synthesis: Synthesis)
        ensures
            synthesis@ == (Pipeline {
                stage: Stage::Started,
                linker: linker@,
                build_script_path: build_script_path@,
                shim_source: shim_source@,
                cargo: text_of(cargo),
                cmd_is_set,
                linux,
                sibling_path: None,
                package_directory: None,
            }),
    {
        Synthesis {
            stage: Stage::Started,
            linker,
            build_script_path,
            shim_source,
            cargo,
            cmd_is_set,
            linux,
            sibling_path: None,
            package_directory: None,
        }
    }

    /// Says what the first step is.
    pub fn begin(&mut self) -> (request: Request)
        ensures
            (final(self)@, request@) == old(self)@.begun(),
    {
        if self.stage != Stage::Started {
            self.stage = Stage::Failed;
            return Request::Abort(None);
        }
        match sibling_directory(self.build_script_path.as_str()) {
            Ok(directory) => {
                self.stage = Stage::Creating;
                Request::CreateSibling(directory)
            },
            Err(e) => {
                self.stage = Stage::Failed;
                Request::Abort(Some(e))
            },
        }
    }

    fn stop(&mut self) -> (request: Request)
        ensures
            (final(self)@, request@) == old(self)@.stopped(None),
    {
        self.stage = Stage::Failed;
        Request::Abort(None)
    }

    /// Takes note of what the driver reports of the last step, and says
    /// what the next step is.
    pub fn advance(&mut self, reply: Reply) -> (request: Request)
        ensures
            (final(self)@, request@) == old(self)@.advanced(reply@),
    {
        match self.stage {
            Stage::Creating => match reply {
                Reply::Path(sibling) => {
                    let from = self.build_script_path.clone();
                    let to = sibling.clone();
                    self.stage = Stage::Renaming;
                    self.sibling_path = Some(sibling);
                    Request::Rename { from, to }
                },
                _ => self.stop(),
            },
            Stage::Renaming => match reply {
                Reply::Done => match &self.sibling_path {
                    Some(sibling) => {
                        let main_rs = main_rs(self.shim_source.as_slice(), sibling.as_str());
                        self.stage = Stage::Writing;
                        Request::WritePackage { manifest: CARGO_TOML.to_owned(), main_rs }
                    },
                    None => self.stop(),
                },
                _ => self.stop(),
            },
            Stage::Writing => match reply {
                Reply::Path(directory) => {
                    let command = wrapper_build(
                        self.linker.as_str(),
                        match &self.cargo {
                            Some(cargo) => Some(cargo.as_str()),
                            None => None,
                        },
                        self.cmd_is_set,
                        self.linux,
                    );
                    let request = Request::Build { command, directory: directory.clone() };
                    self.stage = Stage::Building;
                    self.package_directory = Some(directory);
                    request
                },
                _ => self.stop(),
            },
            Stage::Building => match reply {
                Reply::Done => match &self.package_directory {
                    Some(directory) => {
                        let request = Request::Install {
                            directory: directory.clone(),
                            from: WRAPPER_PATH.to_owned(),
                            to: self.build_script_path.clone(),
                        };
                        self.stage = Stage::Installing;
                        request
                    },
                    None => self.stop(),
                },
                _ => self.stop(),
            },
            Stage::Installing => match reply {
                Reply::Done => {
                    self.stage = Stage::Installed;
                    Request::Finish
                },
                _ => self.stop(),
            },
            Stage::Installed => Request::Finish,
            Stage::Started => self.stop(),
            Stage::Failed => self.stop(),
        }
    }
}

/// How many steps a synthesis at this stage may still take.
pub open spec fn steps_left(stage: Stage) -> nat {
    match stage {
        Stage::Started => 6,
        Stage::Creating => 5,
        Stage::Renaming => 4,
        Stage::Writing => 3,
        Stage::Building => 2,
        Stage::Installing => 1,
        Stage::Installed => 0,
        Stage::Failed => 0,
    }
}

/// A synthesis ends: each report brings it nearer to its end, and once it
/// has ended it stays where it is.
pub proof fn theorem_synthesis_ends(pipeline: Pipeline, reply: ReplyView)
    ensures
        steps_left(pipeline.stage) > 0 ==> steps_left(pipeline.advanced(reply).0.stage)
            < steps_left(pipeline.stage),
        pipeline.stage == Stage::Started ==> steps_left(pipeline.begun().0.stage) < steps_left(
            pipeline.stage,
        ),
        steps_left(pipeline.stage) == 0 ==> pipeline.advanced(reply).0.stage == pipeline.stage,
{
}

/// Nothing is written to where the build script was before the wrapper has
/// been compiled: the wrapper is copied there only after the build has been
/// reported as done, and a step that fails is followed by no other.
pub proof fn theorem_install_after_build(pipeline: Pipeline, reply: ReplyView)
    ensures
        pipeline.begun().1 !is Install,
        pipeline.advanced(reply).1 is Install ==> pipeline.stage == Stage::Building && reply
            == ReplyView::Done,
        pipeline.advanced(reply).1 matches RequestView::Install { to, .. } ==> to
            == pipeline.build_script_path,
        reply == ReplyView::Failed && pipeline.stage != Stage::Installed ==> pipeline.advanced(
            reply,
        ) == pipeline.stopped(None),
        pipeline.stage == Stage::Failed ==> pipeline.advanced(reply) == pipeline.stopped(None),
{
}

/// The build script is moved, never copied or changed: the one step that
/// touches it before the wrapper is installed renames it to the file that
/// was created for it.
pub proof fn theorem_build_script_moves(pipeline: Pipeline, reply: ReplyView)
    ensures
        pipeline.advanced(reply).1 matches RequestView::Rename { from, to } ==> pipeline.stage
            == Stage::Creating && from == pipeline.build_script_path && reply == ReplyView::Path(
            to,
        ) && pipeline.advanced(reply).0.sibling_path == Some(to),
{
}

/// Compiling a wrapper never wraps anything: the build that is asked for
/// links with the linker that did the real link, whatever else is
/// configured, and runs without a compiler wrapper.
pub proof fn theorem_no_recursion(pipeline: Pipeline, reply: ReplyView)
    ensures
        pipeline.advanced(reply).1 matches RequestView::Build { command, .. } ==> {
            &&& command.args.len() == 4
            &&& command.args[2] == "--config"@
            &&& command.args[3] == "target.'cfg(all())'.linker = '"@ + pipeline.linker + "'"@
            &&& command.env_removals == seq!["RUSTC_WRAPPER"@, "RUSTC_WORKSPACE_WRAPPER"@]
        },
{
}

/// Where a file of a package lies: at `path` within `directory`.
pub open spec fn within(directory: Seq<char>, path: Seq<char>) -> Seq<char> {
    directory + seq!['/'] + path
}

/// What the files hold once a request has been carried out and answered
/// with `reply`, if they held `files` before. `built` is the wrapper that
/// the build writes. A request that fails changes nothing.
pub open spec fn carried_out(
    files: Map<Seq<char>, Seq<u8>>,
    request: RequestView,
    reply: ReplyView,
    built: Seq<u8>,
) -> Map<Seq<char>, Seq<u8>> {
    match (request, reply) {
        (RequestView::CreateSibling(_), ReplyView::Path(sibling)) => files.insert(
            sibling,
            Seq::empty(),
        ),
        (RequestView::Rename { from, to }, ReplyView::Done) => if files.dom().contains(from) {
            files.remove(from).insert(to, files[from])
        } else {
            files
        },
        (RequestView::WritePackage { manifest, main_rs }, ReplyView::Path(directory)) => files.insert(
            within(directory, MANIFEST_PATH@),
            encode_utf8(manifest),
        ).insert(within(directory, MAIN_RS_PATH@), main_rs),
        (RequestView::Build { command, directory }, ReplyView::Done) => files.insert(
            within(directory, WRAPPER_PATH@),
            built,
        ),
        (RequestView::Install { directory, from, to }, ReplyView::Done) => if files.dom().contains(
            within(directory, from),
        ) {
            files.insert(to, files[within(directory, from)])
        } else {
            files
        },
        _ => files,
    }
}

/// Whether a reply names only paths that are the driver's to give: the file
/// that is created for the build script is not the build script, and the
/// files of the package are neither the build script nor that file.
pub open spec fn names_new_paths(pipeline: Pipeline, reply: ReplyView) -> bool {
    match (pipeline.stage, reply) {
        (Stage::Creating, ReplyView::Path(sibling)) => sibling != pipeline.build_script_path,
        (Stage::Writing, ReplyView::Path(directory)) => {
            let manifest = within(directory, MANIFEST_PATH@);
            let main_rs = within(directory, MAIN_RS_PATH@);
            let wrapper = within(directory, WRAPPER_PATH@);
            &&& manifest != pipeline.build_script_path
            &&& main_rs != pipeline.build_script_path
            &&& wrapper != pipeline.build_script_path
            &&& Some(manifest) != pipeline.sibling_path
            &&& Some(main_rs) != pipeline.sibling_path
            &&& Some(wrapper) != pipeline.sibling_path
        },
        _ => true,
    }
}

/// Whether `path` holds `content`.
pub open spec fn holds(files: Map<Seq<char>, Seq<u8>>, path: Seq<char>, content: Seq<u8>) -> bool {
    files.dom().contains(path) && files[path] == content
}

/// Whether the files are as a synthesis that stands at `pipeline`, with
/// `request` to be carried out, should have left them: the build script,
/// with the bytes `content` that it had at the start, is where it was until
/// it is renamed, and where it was moved to from then on; the wrapper is
/// where the build script was once the synthesis is done.
pub open spec fn in_step(
    pipeline: Pipeline,
    request: RequestView,
    files: Map<Seq<char>, Seq<u8>>,
    content: Seq<u8>,
    built: Seq<u8>,
) -> bool {
    let script = pipeline.build_script_path;
    match pipeline.stage {
        Stage::Started => holds(files, script, content),
        Stage::Creating => request is CreateSibling && holds(files, script, content),
        Stage::Renaming => {
            &&& pipeline.sibling_path matches Some(sibling)
            &&& sibling != script
            &&& request == (RequestView::Rename { from: script, to: sibling })
            &&& holds(files, script, content)
        },
        Stage::Writing => {
            &&& pipeline.sibling_path matches Some(sibling)
            &&& sibling != script
            &&& request is WritePackage
            &&& holds(files, sibling, content)
        },
        Stage::Building => {
            &&& pipeline.sibling_path matches Some(sibling)
            &&& pipeline.package_directory matches Some(directory)
            &&& sibling != script
            &&& within(directory, WRAPPER_PATH@) != script
            &&& within(directory, WRAPPER_PATH@) != sibling
            &&& request matches RequestView::Build { directory: d, .. }
            &&& d == directory
            &&& holds(files, sibling, content)
        },
        Stage::Installing => {
            &&& pipeline.sibling_path matches Some(sibling)
            &&& pipeline.package_directory matches Some(directory)
            &&& sibling != script
            &&& request == (RequestView::Install { directory, from: WRAPPER_PATH@, to: script })
            &&& holds(files, sibling, content)
            &&& holds(files, within(directory, WRAPPER_PATH@), built)
        },
        Stage::Installed => {
            &&& pipeline.sibling_path matches Some(sibling)
            &&& request is Finish
            &&& holds(files, sibling, content)
            &&& holds(files, script, built)
        },
        Stage::Failed => {
            &&& request is Abort
            &&& {
                ||| holds(files, script, content)
                ||| pipeline.sibling_path matches Some(sibling) && holds(files, sibling, content)
            }
        },
    }
}

/// The build script is never lost, and the wrapper takes its place only
/// at the end. If the files are as they should be at one step, they are so
/// at the next, whatever the driver reports, as long as the paths that it
/// reports are its own to give. So at the end of a synthesis that was done,
/// the file beside the build script holds the bytes that the build script
/// held at the start, and the wrapper is where the build script was; and
/// after one that has failed, those bytes are still at one of the two
/// places.
pub proof fn theorem_build_script_survives(
    pipeline: Pipeline,
    request: RequestView,
    files: Map<Seq<char>, Seq<u8>>,
    reply: ReplyView,
    content: Seq<u8>,
    built: Seq<u8>,
)
    requires
        in_step(pipeline, request, files, content, built),
        names_new_paths(pipeline, reply),
    ensures
        in_step(pipeline.begun().0, pipeline.begun().1, files, content, built),
        pipeline.stage != Stage::Started ==> in_step(
            pipeline.advanced(reply).0,
            pipeline.advanced(reply).1,
            carried_out(files, request, reply, built),
            content,
            built,
        ),
{
}

/// After a synthesis that was done, the file beside the build script holds
/// the bytes that the build script held at the start, unchanged, and the
/// wrapper is where the build script was.
pub proof fn theorem_sibling_holds_build_script(
    pipeline: Pipeline,
    request: RequestView,
    files: Map<Seq<char>, Seq<u8>>,
    content: Seq<u8>,
    built: Seq<u8>,
)
    requires
        in_step(pipeline, request, files, content, built),
        pipeline.stage == Stage::Installed,
    ensures
        pipeline.sibling_path is Some,
        holds(files, pipeline.sibling_path->0, content),
        holds(files, pipeline.build_script_path, built),
{
}

} // verus!
