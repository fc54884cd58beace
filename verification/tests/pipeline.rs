use yatco::args::ArgMap;
use yatco::config::Presets;
use yatco::errors::TransformError;
use yatco::pipeline::{transform_resume, transform_start, PipelineStep, ScriptEvent};

fn done_text(step: PipelineStep) -> String {
    match step {
        PipelineStep::Done(s) => s,
        PipelineStep::RunScript { .. } => panic!("run suspended unexpectedly"),
    }
}

#[test]
fn test_empty_preset_is_identity() {
    let mut store = Presets::new();
    store.add_preset("noop", vec![], None);
    let out = done_text(transform_start(&store, "hello world", "noop"));
    assert_eq!(out, "hello world");
}

#[test]
fn test_unknown_preset_acts_as_empty_chain() {
    let store = Presets::new();
    let out = done_text(transform_start(&store, "anything", "no such preset"));
    assert_eq!(out, "anything");
}

#[test]
fn test_unknown_transformer_stops_chain() {
    let mut store = Presets::new();
    store.add_preset(
        "broken",
        vec!["frobnicate".to_string(), "pretty_json".to_string()],
        None,
    );
    let out = done_text(transform_start(&store, "not json at all", "broken"));
    assert_eq!(out, "Error! Transformer frobnicate doesn't exist.");
}

#[test]
fn test_chain_runs_in_order() {
    let mut store = Presets::new();
    store.add_preset(
        "clean",
        vec!["json_unescape".to_string(), "pretty_json".to_string()],
        None,
    );
    let input = "{\\\"a\\\":1}";
    let out = done_text(transform_start(&store, input, "clean"));
    assert_eq!(out, "{\n    \"a\": 1\n}");
}

#[test]
fn test_failed_step_reports_and_stops() {
    let mut store = Presets::new();
    store.add_preset(
        "pretty",
        vec!["pretty_json".to_string(), "json_unescape".to_string()],
        None,
    );
    let out = done_text(transform_start(&store, "not json", "pretty"));
    assert!(out.starts_with("Error in transformer: "));
}

#[test]
fn test_custom_py_without_args_fails() {
    let mut store = Presets::new();
    store.add_preset("scripted", vec!["custom_py".to_string()], None);
    let out = done_text(transform_start(&store, "payload", "scripted"));
    assert_eq!(
        out,
        "Error in transformer: Required extra arguments are not given to the transformer"
    );
}

#[test]
fn test_custom_py_suspends_and_resumes() {
    let mut store = Presets::new();
    let mut args = ArgMap::new();
    args.insert("py_script".to_string(), "clean.py".to_string());
    store.add_preset("scripted", vec!["custom_py".to_string()], Some(args));
    let step = transform_start(&store, "payload", "scripted");
    match step {
        PipelineStep::RunScript { script, input, state } => {
            assert_eq!(script, "clean.py");
            assert_eq!(input, "payload");
            let out = done_text(transform_resume(
                state,
                ScriptEvent::Output { stdout: "cleaned".to_string(), stderr: String::new() },
            ));
            assert_eq!(out, "cleaned");
        }
        PipelineStep::Done(s) => panic!("expected suspension, got {}", s),
    }
}

#[test]
fn test_stderr_fails_run_despite_stdout() {
    let mut store = Presets::new();
    let mut args = ArgMap::new();
    args.insert("py_script".to_string(), "noisy.py".to_string());
    store.add_preset("scripted", vec!["custom_py".to_string()], Some(args));
    let step = transform_start(&store, "payload", "scripted");
    match step {
        PipelineStep::RunScript { state, .. } => {
            let out = done_text(transform_resume(
                state,
                ScriptEvent::Output {
                    stdout: "perfectly good output".to_string(),
                    stderr: "warning: something\n".to_string(),
                },
            ));
            assert_eq!(out, "Error in transformer: warning: something\n");
        }
        PipelineStep::Done(s) => panic!("expected suspension, got {}", s),
    }
}

#[test]
fn test_spawn_failure_reported() {
    let mut store = Presets::new();
    let mut args = ArgMap::new();
    args.insert("py_script".to_string(), "ghost.py".to_string());
    store.add_preset("scripted", vec!["custom_py".to_string()], Some(args));
    let step = transform_start(&store, "payload", "scripted");
    match step {
        PipelineStep::RunScript { state, .. } => {
            let out = done_text(transform_resume(
                state,
                ScriptEvent::Failed(TransformError::Spawn("interpreter missing".to_string())),
            ));
            assert_eq!(out, "Error in transformer: interpreter missing");
        }
        PipelineStep::Done(s) => panic!("expected suspension, got {}", s),
    }
}
