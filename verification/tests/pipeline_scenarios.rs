use lirstings::error::PipelineError;
use lirstings::pipeline::Action;
use lirstings::pipeline::CompileOutcome;
use lirstings::pipeline::Config;
use lirstings::pipeline::Pipeline;
use lirstings::pipeline::QueryOutcome;
use lirstings::pipeline::Stage;
use lirstings::pipeline::WriteOutcome;
use lirstings::records::Record;
use lirstings::target::Input;
use lirstings::target::Output;

fn path_config() -> Config {
    Config {
        program: "typst".to_string(),
        input: Input::Path("doc.typ".to_string()),
        output: None,
        root: None,
        extra_args: vec![],
        stdin_doc: None,
    }
}

fn stream_config(doc: &str) -> Config {
    Config {
        program: "typst".to_string(),
        input: Input::Stdin,
        output: Some(Output::Stdout),
        root: None,
        extra_args: vec![],
        stdin_doc: Some(doc.to_string()),
    }
}

fn rec(lang: Option<&str>, text: &str, theme: &str) -> Record {
    Record { lang: lang.map(|l| l.to_string()), text: text.to_string(), theme: theme.to_string() }
}

#[test]
fn empty_document_still_compiles() {
    let (mut p, a) = Pipeline::start(path_config());
    assert!(matches!(a, Action::RunQuery { .. }));
    let a = p.on_query_result(QueryOutcome::Records(vec![]), 5);
    match &a {
        Action::WriteSideChannel { path, doc } => {
            assert_eq!(path, "__lirstings-data-5.json");
            assert!(doc.is_empty());
        }
        _ => panic!("expected the side-channel write"),
    }
    let a = p.on_side_channel_written(WriteOutcome::Written);
    match &a {
        Action::RunCompile { program, args, stdin_doc } => {
            assert_eq!(program, "typst");
            assert_eq!(
                args,
                &vec!["compile", "doc.typ", "--input=__lirstings=/__lirstings-data-5.json"]
            );
            assert!(stdin_doc.is_none());
        }
        _ => panic!("expected the compile invocation"),
    }
    let a = p.on_compile_finished(CompileOutcome::Succeeded);
    assert!(matches!(a, Action::RemoveSideChannel { .. }));
    let a = p.on_cleanup_done();
    assert!(matches!(a, Action::Report { error: None }));
    assert!(matches!(p.stage, Stage::Done));
}

#[test]
fn listing_without_language_still_completes() {
    let (mut p, _a) = Pipeline::start(path_config());
    let records = vec![rec(None, "text", "github::dark")];
    let a = p.on_query_result(QueryOutcome::Records(records), 7);
    match &a {
        Action::WriteSideChannel { doc, .. } => assert_eq!(doc.len(), 1),
        _ => panic!("expected the side-channel write"),
    }
    p.on_side_channel_written(WriteOutcome::Written);
    p.on_compile_finished(CompileOutcome::Succeeded);
    let a = p.on_cleanup_done();
    assert!(matches!(a, Action::Report { error: None }));
    assert!(matches!(p.stage, Stage::Done));
}

#[test]
fn unknown_theme_fails_before_any_side_channel_write() {
    let (mut p, _a) = Pipeline::start(path_config());
    let records = vec![rec(Some("python"), "x = 1", "not-a-real-theme")];
    let a = p.on_query_result(QueryOutcome::Records(records), 9);
    match a {
        Action::Report { error } => assert_eq!(error, Some(PipelineError::UnknownTheme)),
        _ => panic!("an unknown theme must abort before the compile stage"),
    }
    assert!(matches!(p.stage, Stage::Failed { error: PipelineError::UnknownTheme }));
}

#[test]
fn query_failure_ends_the_run_without_compile() {
    let (mut p, _a) = Pipeline::start(path_config());
    let a = p.on_query_result(QueryOutcome::SubprocessFailed, 1);
    match a {
        Action::Report { error } => assert_eq!(error, Some(PipelineError::SubprocessFailure)),
        _ => panic!("a failed query must end the run"),
    }
    assert!(matches!(p.stage, Stage::Failed { .. }));
}

#[test]
fn query_spawn_and_decode_failures_are_distinguished() {
    let (mut p, _a) = Pipeline::start(path_config());
    let a = p.on_query_result(QueryOutcome::SpawnFailed, 1);
    assert!(matches!(a, Action::Report { error: Some(PipelineError::SpawnFailure) }));

    let (mut p, _a) = Pipeline::start(path_config());
    let a = p.on_query_result(QueryOutcome::DecodeFailed, 1);
    assert!(matches!(a, Action::Report { error: Some(PipelineError::ProtocolDecodeFailure) }));
}

#[test]
fn stream_buffer_reaches_both_subprocesses_unchanged() {
    let text = "#lorem(20)\n```python\nx = 1\n```\n";
    let (mut p, a) = Pipeline::start(stream_config(text));
    let first = match a {
        Action::RunQuery { stdin_doc, args, .. } => {
            assert_eq!(args[1], "-");
            stdin_doc.expect("stream input carries the buffer")
        }
        _ => panic!("expected the query invocation"),
    };
    assert_eq!(first, text);
    let _ = p.on_query_result(QueryOutcome::Records(vec![]), 3);
    let a = p.on_side_channel_written(WriteOutcome::Written);
    let second = match a {
        Action::RunCompile { stdin_doc, .. } => stdin_doc.expect("compile replays the buffer"),
        _ => panic!("expected the compile invocation"),
    };
    assert_eq!(second, text);
    assert_eq!(first, second);
}

#[test]
fn compile_failure_still_cleans_up_then_fails() {
    let (mut p, _a) = Pipeline::start(path_config());
    let _ = p.on_query_result(QueryOutcome::Records(vec![]), 11);
    let _ = p.on_side_channel_written(WriteOutcome::Written);
    let a = p.on_compile_finished(CompileOutcome::Failed);
    match &a {
        Action::RemoveSideChannel { path } => {
            assert_eq!(path, "__lirstings-data-11.json");
        }
        _ => panic!("cleanup must run after a failed compile"),
    }
    let a = p.on_cleanup_done();
    assert!(matches!(a, Action::Report { error: Some(PipelineError::CompileFailed) }));
    assert!(matches!(p.stage, Stage::Failed { .. }));
}

#[test]
fn write_failure_after_create_cleans_up_then_fails() {
    let (mut p, _a) = Pipeline::start(path_config());
    let _ = p.on_query_result(QueryOutcome::Records(vec![]), 13);
    let a = p.on_side_channel_written(WriteOutcome::FailedAfterCreate);
    assert!(matches!(a, Action::RemoveSideChannel { .. }));
    let a = p.on_cleanup_done();
    assert!(matches!(a, Action::Report { error: Some(PipelineError::FilesystemFailure) }));
}

#[test]
fn write_failure_before_create_fails_without_cleanup() {
    let (mut p, _a) = Pipeline::start(path_config());
    let _ = p.on_query_result(QueryOutcome::Records(vec![]), 17);
    let a = p.on_side_channel_written(WriteOutcome::FailedBeforeCreate);
    assert!(matches!(a, Action::Report { error: Some(PipelineError::FilesystemFailure) }));
    assert!(matches!(p.stage, Stage::Failed { .. }));
}

#[test]
fn side_channel_path_respects_root_and_input_dir() {
    let mut c = path_config();
    c.input = Input::Path("book/ch1/doc.typ".to_string());
    let (mut p, _a) = Pipeline::start(c);
    let a = p.on_query_result(QueryOutcome::Records(vec![]), 21);
    match a {
        Action::WriteSideChannel { path, .. } => {
            assert_eq!(path, "book/ch1/__lirstings-data-21.json");
        }
        _ => panic!("expected the side-channel write"),
    }
}
