use vstd::prelude::*;

verus! {

/// Everything that can abort a pipeline run. All of these are fatal for the
/// run; only an unknown or absent listing language is not an error (that
/// listing is downgraded to `Unavailable` instead).
#[derive(Clone, Copy, Debug, PartialEq, Eq, Structural)]
pub enum PipelineError {
    /// The compiler binary could not be started.
    SpawnFailure,
    /// A compiler subprocess failed while running the query.
    SubprocessFailure,
    /// The query output did not decode to the expected record shape.
    ProtocolDecodeFailure,
    /// A listing names a theme the highlighting engine does not know.
    UnknownTheme,
    /// The highlighting engine failed on a listing with a known language.
    HighlightFailure,
    /// The side-channel file could not be written.
    FilesystemFailure,
    /// The compile subprocess failed; cleanup still runs.
    CompileFailed,
}

} // verus!
