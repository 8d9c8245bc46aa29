use vstd::prelude::*;
use vstd::string::StringExecFns;

use crate::codec::filename_view;
use crate::opt_text;
use crate::views_of;
use crate::codec::side_channel_filename;
use crate::codec::side_channel_path;
use crate::codec::side_channel_path_view;
use crate::engine::first_failure;
use crate::engine::highlight_records;
use crate::engine::rec_ok;
use crate::engine::res_covers;
use crate::engine::result_matches;
use crate::error::PipelineError;
use crate::records::HighlightResult;
use crate::records::Record;
use crate::target::Input;
use crate::target::Output;

verus! {

/// Everything one pipeline run is configured with.
pub struct Config {
    /// The compiler binary to invoke.
    pub program: String,
    /// The document to compile.
    pub input: Input,
    /// The output artifact, when one is named on the command line.
    pub output: Option<Output>,
    /// The configured project root, if any.
    pub root: Option<String>,
    /// Extra arguments forwarded verbatim to both compiler invocations.
    pub extra_args: Vec<String>,
    /// The buffered document bytes when the input is a stream: a stream is
    /// read once up front, and the same buffer is replayed to both
    /// subprocesses, because a stream cannot be read twice.
    pub stdin_doc: Option<String>,
}

impl Config {
    /// A buffer is held exactly when the input is a stream.
    pub open spec fn wf(&self) -> bool {
        self.stdin_doc is Some <==> self.input is Stdin
    }
}

/// Where a run stands. The run advances only forward; `Done` and `Failed` are
/// terminal, and `CleaningUp` is entered from `Compiling` and from a write
/// failure that may have created the file — the only states in which the
/// side-channel file can exist.
pub enum Stage {
    /// The query subprocess is running.
    Querying,
    /// Highlighting succeeded; the side-channel file is being written.
    Writing {
        /// Full path of the side-channel file.
        path: String,
        /// Its file name, which the compile stage binds relative to the root.
        filename: String,
    },
    /// The compile subprocess is running; the side-channel file exists.
    Compiling {
        /// Full path of the side-channel file.
        path: String,
    },
    /// The side-channel file is being removed; afterwards the run ends with
    /// the recorded error, or cleanly if there is none.
    CleaningUp {
        /// The failure to report once cleanup has run, if any.
        pending: Option<PipelineError>,
    },
    /// The run finished and produced its artifact.
    Done,
    /// The run was aborted; no further stage runs.
    Failed {
        /// Why the run was aborted.
        error: PipelineError,
    },
}

/// What the caller must perform next on behalf of the pipeline. The pipeline
/// itself decides; the caller only executes subprocesses and file operations
/// and reports their outcomes back.
pub enum Action {
    /// Spawn the compiler in query mode with these arguments, feeding it the
    /// buffer on standard input when one is given, and capture its output.
    RunQuery {
        /// The compiler binary.
        program: String,
        /// Its arguments, in order.
        args: Vec<String>,
        /// The document buffer to replay on standard input, for a stream.
        stdin_doc: Option<String>,
    },
    /// Write the side-channel document to this path.
    WriteSideChannel {
        /// Full path of the side-channel file.
        path: String,
        /// The highlight results, index-aligned with the query's records.
        doc: Vec<HighlightResult>,
    },
    /// Spawn the compiler in compile mode with these arguments, feeding it
    /// the buffer on standard input when one is given.
    RunCompile {
        /// The compiler binary.
        program: String,
        /// Its arguments, in order.
        args: Vec<String>,
        /// The document buffer to replay on standard input, for a stream.
        stdin_doc: Option<String>,
    },
    /// Delete the side-channel file, best effort: a failure to delete is
    /// swallowed, and the run's outcome does not depend on it.
    RemoveSideChannel {
        /// Full path of the side-channel file.
        path: String,
    },
    /// The run is over; report the error, or success if there is none.
    Report {
        /// The failure that ended the run, if any.
        error: Option<PipelineError>,
    },
}

/// How the query subprocess ended, as the caller observed it.
pub enum QueryOutcome {
    /// It exited and its output decoded to these records, in document order.
    Records(Vec<Record>),
    /// The binary could not be started.
    SpawnFailed,
    /// It ran but exited abnormally.
    SubprocessFailed,
    /// Its output did not decode to the expected record shape.
    DecodeFailed,
}

/// How writing the side-channel file ended.
pub enum WriteOutcome {
    /// The document was written completely.
    Written,
    /// Writing failed after the file was created; it must be cleaned up.
    FailedAfterCreate,
    /// The file could not even be created; there is nothing to clean up.
    FailedBeforeCreate,
}

/// How the compile subprocess ended.
pub enum CompileOutcome {
    /// It exited successfully.
    Succeeded,
    /// The binary could not be started.
    SpawnFailed,
    /// It exited abnormally or with a non-zero status.
    Failed,
}

/// The `--root` arguments, when a root is configured.
pub open spec fn root_args_view(root: Option<Seq<char>>) -> Seq<Seq<char>> {
    match root {
        Some(r) => seq!["--root"@, r],
        None => Seq::empty(),
    }
}

/// The optional output argument of the compile invocation.
pub open spec fn output_args_view(output: Option<Output>) -> Seq<Seq<char>> {
    match output {
        Some(o) => seq![o.arg_view()],
        None => Seq::empty(),
    }
}

/// The named input binding through which the compile invocation learns the
/// side-channel file's location, relative to the project root.
pub open spec fn binding_arg_view(filename: Seq<char>) -> Seq<char> {
    "--input=__lirstings=/"@ + filename
}

/// The full argument list of the query invocation: query mode, the input,
/// the root if any, the marker-node selector, the field to retrieve, and the
/// forwarded extra arguments.
pub open spec fn query_args_view(c: Config) -> Seq<Seq<char>> {
    seq!["query"@, c.input.arg_view()] + root_args_view(opt_text(c.root)) + seq![
        "<__lirstings>"@,
        "--field=value"@,
    ] + views_of(c.extra_args@)
}

/// The full argument list of the compile invocation: compile mode, the input,
/// the output if any, the root if any, the side-channel binding, and the
/// forwarded extra arguments.
pub open spec fn compile_args_view(c: Config, filename: Seq<char>) -> Seq<Seq<char>> {
    seq!["compile"@, c.input.arg_view()] + output_args_view(c.output) + root_args_view(
        opt_text(c.root),
    ) + seq![binding_arg_view(filename)] + views_of(c.extra_args@)
}

/// The full path of the side-channel file for a run of this configuration
/// stamped with these milliseconds.
pub open spec fn run_path_view(c: Config, millis: nat) -> Seq<char> {
    side_channel_path_view(opt_text(c.root), c.input, filename_view(millis))
}

/// Every subprocess action carries the configuration's document buffer, so
/// the query and the compile subprocess are fed the same bytes.
pub open spec fn action_carries_config_buffer(c: Config, a: Action) -> bool {
    match a {
        Action::RunQuery { stdin_doc, .. } => opt_text(stdin_doc) == opt_text(c.stdin_doc),
        Action::RunCompile { stdin_doc, .. } => opt_text(stdin_doc) == opt_text(c.stdin_doc),
        _ => true,
    }
}

/// The pipeline reached `Failed` with this error and reported it.
pub open spec fn failed_with(p: Pipeline, a: Action, e: PipelineError) -> bool {
    &&& p.stage matches Stage::Failed { error } && error == e
    &&& a matches Action::Report { error } && error == Some(e)
}

/// The successful outcome of the query stage: the pipeline moves to writing
/// the side-channel file at the run's path, and the emitted write action
/// carries a document index-aligned with the records.
pub open spec fn query_success_transition(
    p: Pipeline,
    a: Action,
    records: Vec<Record>,
    path: Seq<char>,
    filename: Seq<char>,
) -> bool {
    &&& p.stage matches Stage::Writing { path: sp, filename: sf } && sp@ == path && sf@ == filename
    &&& a matches Action::WriteSideChannel { path: ap, doc } && ap@ == path && doc@.len()
        == records@.len() && (forall|i: int|
        0 <= i < records@.len() ==> result_matches(records@[i], #[trigger] doc@[i]) && res_covers(
            records@[i],
            doc@[i],
        ))
}

/// Copies an optional buffer; the text is unchanged.
fn clone_opt_string(o: &Option<String>) -> (r: Option<String>)
    ensures
        opt_text(r) == opt_text(*o),
{
    match o {
        None => None,
        Some(s) => Some(s.clone()),
    }
}

/// Appends a copy of every extra argument, in order.
fn append_all(args: Vec<String>, extra: &Vec<String>) -> (r: Vec<String>)
    ensures
        views_of(r@) == views_of(args@) + views_of(extra@),
{
    let ghost head = views_of(args@);
    let mut r = args;
    let mut i: usize = 0;
    while i < extra.len()
        invariant
            0 <= i <= extra@.len(),
            views_of(r@) == head + views_of(extra@).take(i as int),
        decreases extra@.len() - i,
    {
        let ghost pre = r@;
        r.push(extra[i].clone());
        proof {
            assert(views_of(pre).len() == pre.len());
            assert(forall|k: int|
                0 <= k < pre.len() ==> #[trigger] views_of(r@)[k] == views_of(pre)[k]);
            assert(views_of(r@) =~= head + views_of(extra@).take(i as int + 1));
        }
        i += 1;
    }
    proof {
        assert(views_of(extra@).take(extra@.len() as int) =~= views_of(extra@));
    }
    r
}

/// The argument the compiler gets for the input: `-` for a stream.
fn input_arg(input: &Input) -> (r: String)
    ensures
        r@ == input.arg_view(),
{
    match input {
        Input::Stdin => String::from_str("-"),
        Input::Path(p) => p.clone(),
    }
}

/// The argument the compiler gets for the output: `-` for a stream.
fn output_arg(output: &Output) -> (r: String)
    ensures
        r@ == output.arg_view(),
{
    match output {
        Output::Stdout => String::from_str("-"),
        Output::Path(p) => p.clone(),
    }
}

/// Builds the query invocation's argument list.
pub fn query_args(c: &Config) -> (r: Vec<String>)
    ensures
        views_of(r@) == query_args_view(*c),
{
    let mut args: Vec<String> = Vec::new();
    args.push(String::from_str("query"));
    args.push(input_arg(&c.input));
    match &c.root {
        Some(root) => {
            args.push(String::from_str("--root"));
            args.push(root.clone());
        },
        None => {},
    }
    args.push(String::from_str("<__lirstings>"));
    args.push(String::from_str("--field=value"));
    let ghost head = views_of(args@);
    let args = append_all(args, &c.extra_args);
    proof {
        assert(head =~= query_args_view(*c).take(head.len() as int));
        assert(views_of(args@) =~= query_args_view(*c));
    }
    args
}

/// Builds the compile invocation's argument list for this side-channel file
/// name.
pub fn compile_args(c: &Config, filename: &str) -> (r: Vec<String>)
    ensures
        views_of(r@) == compile_args_view(*c, filename@),
{
    let mut args: Vec<String> = Vec::new();
    args.push(String::from_str("compile"));
    args.push(input_arg(&c.input));
    match &c.output {
        Some(o) => {
            args.push(output_arg(o));
        },
        None => {},
    }
    match &c.root {
        Some(root) => {
            args.push(String::from_str("--root"));
            args.push(root.clone());
        },
        None => {},
    }
    let mut binding = String::from_str("--input=__lirstings=/");
    binding.append(filename);
    args.push(binding);
    let ghost head = views_of(args@);
    let args = append_all(args, &c.extra_args);
    proof {
        assert(head =~= compile_args_view(*c, filename@).take(head.len() as int));
        assert(views_of(args@) =~= compile_args_view(*c, filename@));
    }
    args
}

/// One pipeline run: its fixed configuration and where it stands. Created by
/// [`Pipeline::start`]; the caller performs each returned [`Action`] and
/// reports the outcome through the matching `on_*` method until an
/// [`Action::Report`] ends the run.
pub struct Pipeline {
    /// The run's configuration; no step changes it.
    pub config: Config,
    /// Where the run stands.
    pub stage: Stage,
}

impl Pipeline {
    /// Marks the run failed and reports the error.
    fn fail(&mut self, e: PipelineError) -> (a: Action)
        ensures
            final(self).config == old(self).config,
            failed_with(*final(self), a, e),
            action_carries_config_buffer(final(self).config, a),
    {
        self.stage = Stage::Failed { error: e };
        Action::Report { error: Some(e) }
    }

    /// Begins a run: the pipeline enters the query stage and asks the caller
    /// to run the query subprocess, feeding it the configured buffer.
    pub fn start(config: Config) -> (r: (Pipeline, Action))
        requires
            config.wf(),
        ensures
            r.0.config == config,
            r.0.stage is Querying,
            r.1 matches Action::RunQuery { program, args, stdin_doc } && program@ == config.program@
                && views_of(args@) == query_args_view(config) && opt_text(stdin_doc) == opt_text(
                config.stdin_doc,
            ),
            action_carries_config_buffer(config, r.1),
    {
        let args = query_args(&config);
        let program = config.program.clone();
        let stdin_doc = clone_opt_string(&config.stdin_doc);
        let action = Action::RunQuery { program, args, stdin_doc };
        (Pipeline { config, stage: Stage::Querying }, action)
    }

    /// Consumes the query's outcome. A query failure aborts the run before
    /// any side-channel file exists. Otherwise every record is highlighted:
    /// an unknown theme or an engine failure aborts the run, still before any
    /// side-channel file exists; else the pipeline asks the caller to write
    /// the side-channel document, index-aligned with the records, at the
    /// run's path, stamped with the given milliseconds.
    pub fn on_query_result(&mut self, outcome: QueryOutcome, now_millis: u64) -> (a: Action)
        requires
            old(self).stage is Querying,
        ensures
            final(self).config == old(self).config,
            action_carries_config_buffer(final(self).config, a),
            match outcome {
                QueryOutcome::SpawnFailed => failed_with(
                    *final(self),
                    a,
                    PipelineError::SpawnFailure,
                ),
                QueryOutcome::SubprocessFailed => failed_with(
                    *final(self),
                    a,
                    PipelineError::SubprocessFailure,
                ),
                QueryOutcome::DecodeFailed => failed_with(
                    *final(self),
                    a,
                    PipelineError::ProtocolDecodeFailure,
                ),
                QueryOutcome::Records(records) => {
                    if forall|i: int| 0 <= i < records@.len() ==> rec_ok(#[trigger] records@[i]) {
                        query_success_transition(
                            *final(self),
                            a,
                            records,
                            run_path_view(old(self).config, now_millis as nat),
                            filename_view(now_millis as nat),
                        )
                    } else {
                        exists|e: PipelineError, i: int|
                            first_failure(records@, i, e) && failed_with(*final(self), a, e)
                    }
                },
            },
    {
        match outcome {
            QueryOutcome::SpawnFailed => self.fail(PipelineError::SpawnFailure),
            QueryOutcome::SubprocessFailed => self.fail(PipelineError::SubprocessFailure),
            QueryOutcome::DecodeFailed => self.fail(PipelineError::ProtocolDecodeFailure),
            QueryOutcome::Records(records) => {
                match highlight_records(&records) {
                    Err(e) => self.fail(e),
                    Ok(doc) => {
                        let filename = side_channel_filename(now_millis);
                        let path = side_channel_path(
                            &self.config.root,
                            &self.config.input,
                            filename.as_str(),
                        );
                        self.stage = Stage::Writing { path: path.clone(), filename };
                        Action::WriteSideChannel { path, doc }
                    },
                }
            },
        }
    }

    /// Consumes the write's outcome. On success the pipeline asks the caller
    /// to run the compile subprocess, feeding it the same buffer as the query
    /// and binding the side-channel file name relative to the root. A write
    /// failure aborts the run — but if the file was already created, cleanup
    /// runs first.
    pub fn on_side_channel_written(&mut self, outcome: WriteOutcome) -> (a: Action)
        requires
            old(self).stage is Writing,
        ensures
            final(self).config == old(self).config,
            action_carries_config_buffer(final(self).config, a),
            match outcome {
                WriteOutcome::Written => old(self).stage matches Stage::Writing {
                    path,
                    filename,
                } && (final(self).stage matches Stage::Compiling { path: p2 } && p2@ == path@) && (
                a matches Action::RunCompile { program, args, stdin_doc } && program@ == old(
                    self,
                ).config.program@ && views_of(args@) == compile_args_view(
                    old(self).config,
                    filename@,
                ) && opt_text(stdin_doc) == opt_text(old(self).config.stdin_doc)),
                WriteOutcome::FailedAfterCreate => old(self).stage matches Stage::Writing {
                    path,
                    filename,
                } && (final(self).stage matches Stage::CleaningUp { pending } && pending == Some(
                    PipelineError::FilesystemFailure,
                )) && (a matches Action::RemoveSideChannel { path: p2 } && p2@ == path@),
                WriteOutcome::FailedBeforeCreate => failed_with(
                    *final(self),
                    a,
                    PipelineError::FilesystemFailure,
                ),
            },
    {
        let (path, filename) = match &self.stage {
            Stage::Writing { path, filename } => (path.clone(), filename.clone()),
            _ => vstd::pervasive::unreached(),
        };
        match outcome {
            WriteOutcome::Written => {
                let args = compile_args(&self.config, filename.as_str());
                let program = self.config.program.clone();
                let stdin_doc = clone_opt_string(&self.config.stdin_doc);
                self.stage = Stage::Compiling { path };
                Action::RunCompile { program, args, stdin_doc }
            },
            WriteOutcome::FailedAfterCreate => {
                self.stage = Stage::CleaningUp {
                    pending: Some(PipelineError::FilesystemFailure),
                };
                Action::RemoveSideChannel { path }
            },
            WriteOutcome::FailedBeforeCreate => self.fail(PipelineError::FilesystemFailure),
        }
    }

    /// Consumes the compile subprocess's outcome. Whatever it was, cleanup
    /// runs next: the side-channel file is removed unconditionally once it
    /// exists. A compile failure is recorded and reported after cleanup.
    pub fn on_compile_finished(&mut self, outcome: CompileOutcome) -> (a: Action)
        requires
            old(self).stage is Compiling,
        ensures
            final(self).config == old(self).config,
            action_carries_config_buffer(final(self).config, a),
            old(self).stage matches Stage::Compiling { path } && (
            a matches Action::RemoveSideChannel { path: p2 } && p2@ == path@),
            final(self).stage matches Stage::CleaningUp { pending } && pending == (match outcome {
                CompileOutcome::Succeeded => None::<PipelineError>,
                CompileOutcome::SpawnFailed => Some(PipelineError::SpawnFailure),
                CompileOutcome::Failed => Some(PipelineError::CompileFailed),
            }),
    {
        let path = match &self.stage {
            Stage::Compiling { path } => path.clone(),
            _ => vstd::pervasive::unreached(),
        };
        let error = match outcome {
            CompileOutcome::Succeeded => None,
            CompileOutcome::SpawnFailed => Some(PipelineError::SpawnFailure),
            CompileOutcome::Failed => Some(PipelineError::CompileFailed),
        };
        self.stage = Stage::CleaningUp { pending: error };
        Action::RemoveSideChannel { path }
    }

    /// Ends the run once cleanup has been attempted (a failure to delete the
    /// transient file is swallowed): the run is done, or failed with the
    /// error recorded before cleanup.
    pub fn on_cleanup_done(&mut self) -> (a: Action)
        requires
            old(self).stage is CleaningUp,
        ensures
            final(self).config == old(self).config,
            action_carries_config_buffer(final(self).config, a),
            match old(self).stage {
                Stage::CleaningUp { pending } => match pending {
                    None => final(self).stage is Done && (a matches Action::Report { error: r }
                        && r is None),
                    Some(e) => failed_with(*final(self), a, e),
                },
                _ => false,
            },
    {
        let error = match &self.stage {
            Stage::CleaningUp { pending } => *pending,
            _ => vstd::pervasive::unreached(),
        };
        match error {
            None => {
                self.stage = Stage::Done;
                Action::Report { error: None }
            },
            Some(e) => self.fail(e),
        }
    }
}

/// Law: the side-channel document of a successful query stage is index-aligned
/// with the query's listing records — same length, and element `i` is the
/// highlight result of record `i` — and the success transition emits exactly
/// the action that writes it.
pub proof fn lemma_side_channel_aligned(
    p: Pipeline,
    a: Action,
    records: Vec<Record>,
    path: Seq<char>,
    filename: Seq<char>,
)
    requires
        query_success_transition(p, a, records, path, filename),
    ensures
        match a {
            Action::WriteSideChannel { path: _, doc } => doc@.len() == records@.len() && (forall|
                i: int,
            |
                0 <= i < records@.len() ==> result_matches(records@[i], #[trigger] doc@[i])
                    && res_covers(records@[i], doc@[i])),
            _ => false,
        },
{
}

/// Law: for one configuration, the query subprocess and the compile
/// subprocess are handed the same document buffer on standard input.
pub proof fn lemma_same_buffer_both_runs(c: Config, q: Action, comp: Action)
    requires
        action_carries_config_buffer(c, q),
        action_carries_config_buffer(c, comp),
        q is RunQuery,
        comp is RunCompile,
    ensures
        match (q, comp) {
            (
                Action::RunQuery { stdin_doc: s1, .. },
                Action::RunCompile { stdin_doc: s2, .. },
            ) => opt_text(s1) == opt_text(s2),
            _ => false,
        },
{
}

} // verus!
