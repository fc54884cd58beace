//! The pipeline executor: applies a preset's transformers in order,
//! fail-fast, returning the final text or a textual error message.  The
//! external script transformer suspends the run; the surrounding application
//! performs the process work and resumes with its outcome.

use vstd::prelude::*;
use vstd::string::*;
use crate::args::{spec_lookup, ArgMap};
use crate::config::{spec_find_preset, Presets};
use crate::custom_py;
use crate::errors::{spec_escape_message, spec_message, TransformError};
use crate::json::{json_parse_err, json_parses, json_pretty};
use crate::json_unescape;
use crate::pretty_json;
use crate::strutil::spec_blank;
use crate::transformers::{get_transformer, spec_get_transformer, TransformerKind};

verus! {

/// The message for a transformer name the registry does not know.
pub open spec fn spec_unknown_msg(name: Seq<char>) -> Seq<char> {
    "Error! Transformer "@ + name + " doesn't exist."@
}

/// The message for a transformer step that failed.
pub open spec fn spec_failure_msg(m: Seq<char>) -> Seq<char> {
    "Error in transformer: "@ + m
}

/// Where a suspended run stands: the full transformer list, the step that
/// suspended it, and the preset's argument map.
pub struct PipelineState {
    pub transformers: Vec<String>,
    pub next_index: usize,
    pub extra_args: Option<ArgMap>,
}

/// What one call into the executor yields.
pub enum PipelineStep {
    /// The run ended; the text is the boundary's reply, a result or an
    /// error message.
    Done(String),
    /// The run waits for the external script transformer: run `script` with
    /// `input` on its standard input, then hand the outcome to
    /// `transform_resume`.
    RunScript { script: String, input: String, state: PipelineState },
}

/// What a run yields, mathematically.
pub ghost enum SpecOutcome {
    Finished(Seq<char>),
    AwaitScript { script: Seq<char>, input: Seq<char>, at: int },
}

/// The run from step `i` with running text `text`, up to its end or the
/// first suspension at the external script transformer.
pub open spec fn spec_run(
    names: Seq<Seq<char>>,
    i: int,
    text: Seq<char>,
    args: Option<Seq<(Seq<char>, Seq<char>)>>,
) -> SpecOutcome
    decreases names.len() - i,
{
    if i < 0 || i >= names.len() {
        SpecOutcome::Finished(text)
    } else {
        match spec_get_transformer(names[i]) {
            None => SpecOutcome::Finished(spec_unknown_msg(names[i])),
            Some(TransformerKind::PrettyJson) => {
                if json_parses(text) {
                    spec_run(names, i + 1, json_pretty(text), args)
                } else {
                    SpecOutcome::Finished(spec_failure_msg(json_parse_err(text)))
                }
            },
            Some(TransformerKind::JsonUnescape) => {
                match json_unescape::spec_json_unescape(text) {
                    Ok(u) => spec_run(names, i + 1, u, args),
                    Err(e) => SpecOutcome::Finished(spec_failure_msg(spec_escape_message(e))),
                }
            },
            Some(TransformerKind::CustomPy) => {
                match args {
                    Some(m) => match spec_lookup(m, "py_script"@) {
                        Some(s) => SpecOutcome::AwaitScript { script: s, input: text, at: i },
                        None => SpecOutcome::Finished(
                            spec_failure_msg(spec_message(TransformError::MissingArgument)),
                        ),
                    },
                    None => SpecOutcome::Finished(
                        spec_failure_msg(spec_message(TransformError::MissingArgument)),
                    ),
                }
            },
        }
    }
}

/// The views of a state's transformer list and argument map.
pub open spec fn spec_args_view(a: Option<ArgMap>) -> Option<Seq<(Seq<char>, Seq<char>)>> {
    match a {
        Some(m) => Some(m@),
        None => None,
    }
}

/// Whether the executable step `r` carries the outcome `o` of a run over
/// `names` and `args`.
pub open spec fn step_models(
    r: PipelineStep,
    o: SpecOutcome,
    names: Seq<Seq<char>>,
    args: Option<Seq<(Seq<char>, Seq<char>)>>,
) -> bool {
    match o {
        SpecOutcome::Finished(t) => r matches PipelineStep::Done(s) && s@ == t,
        SpecOutcome::AwaitScript { script, input, at } => r matches PipelineStep::RunScript {
            script: sc,
            input: inp,
            state,
        } && sc@ == script && inp@ == input && state.next_index == at
            && state.transformers.deep_view() == names && spec_args_view(state.extra_args) == args,
    }
}

fn unknown_msg(name: &String) -> (r: String)
    ensures
        r@ == spec_unknown_msg(name@),
{
    let mut s = "Error! Transformer ".to_owned();
    s.append(name.as_str());
    s.append(" doesn't exist.");
    s
}

fn failure_msg(e: &TransformError) -> (r: String)
    ensures
        r@ == spec_failure_msg(spec_message(*e)),
{
    let mut s = "Error in transformer: ".to_owned();
    let m = e.message();
    s.append(m.as_str());
    s
}

/// Runs the chain from step `i`, fail-fast, until it ends or suspends.
fn advance(names: Vec<String>, start: usize, input: String, args: Option<ArgMap>) -> (r:
    PipelineStep)
    ensures
        step_models(
            r,
            spec_run(names.deep_view(), start as int, input@, spec_args_view(args)),
            names.deep_view(),
            spec_args_view(args),
        ),
{
    let mut i = start;
    let mut text = input;
    while i < names.len()
        invariant
            spec_run(names.deep_view(), start as int, input@, spec_args_view(args)) == spec_run(
                names.deep_view(),
                i as int,
                text@,
                spec_args_view(args),
            ),
        decreases names.len() - i,
    {
        proof {
            assert(names.deep_view()[i as int] == names@[i as int]@);
        }
        match get_transformer(names[i].as_str()) {
            None => {
                let msg = unknown_msg(&names[i]);
                return PipelineStep::Done(msg);
            },
            Some(TransformerKind::PrettyJson) => {
                match pretty_json::transform(text.as_str(), args.as_ref()) {
                    Ok(s) => {
                        text = s;
                        i = i + 1;
                    },
                    Err(e) => {
                        return PipelineStep::Done(failure_msg(&e));
                    },
                }
            },
            Some(TransformerKind::JsonUnescape) => {
                match json_unescape::transform(text.as_str(), args.as_ref()) {
                    Ok(s) => {
                        text = s;
                        i = i + 1;
                    },
                    Err(e) => {
                        return PipelineStep::Done(failure_msg(&e));
                    },
                }
            },
            Some(TransformerKind::CustomPy) => {
                match custom_py::required_script(args.as_ref()) {
                    Ok(script) => {
                        return PipelineStep::RunScript {
                            script,
                            input: text,
                            state: PipelineState {
                                transformers: names,
                                next_index: i,
                                extra_args: args,
                            },
                        };
                    },
                    Err(e) => {
                        return PipelineStep::Done(failure_msg(&e));
                    },
                }
            },
        }
    }
    PipelineStep::Done(text)
}

/// The transformer list and argument map the run of `name` uses: those of
/// the first preset so named, or an empty chain when none is.
pub open spec fn spec_preset_names(ps: Seq<crate::config::PresetView>, name: Seq<char>) -> Seq<
    Seq<char>,
> {
    match spec_find_preset(ps, name) {
        Some(p) => p.transformers,
        None => Seq::empty(),
    }
}

pub open spec fn spec_preset_args(ps: Seq<crate::config::PresetView>, name: Seq<char>) -> Option<
    Seq<(Seq<char>, Seq<char>)>,
> {
    match spec_find_preset(ps, name) {
        Some(p) => p.extra_args,
        None => None,
    }
}

/// Starts a run: looks the preset up (an unknown name acts as an empty
/// chain) and applies its transformers in order until the run ends, fails,
/// or suspends at the external script transformer.
pub fn transform_start(presets: &Presets, input: &str, preset_name: &str) -> (r: PipelineStep)
    ensures
        step_models(
            r,
            spec_run(
                spec_preset_names(presets@, preset_name@),
                0,
                input@,
                spec_preset_args(presets@, preset_name@),
            ),
            spec_preset_names(presets@, preset_name@),
            spec_preset_args(presets@, preset_name@),
        ),
{
    let found = presets.get_preset_by_name(preset_name);
    proof {
        assert(found.1.deep_view() == spec_preset_names(presets@, preset_name@));
    }
    advance(found.1, 0, input.to_owned(), found.2)
}

/// Resumes a suspended run with what the external process did.  A process
/// that could not be resolved or started fails the run with that error's
/// message; one that wrote anything but whitespace to standard error fails
/// the run with that text, whatever it wrote to standard output; otherwise
/// its standard output becomes the running text and the chain goes on.
pub fn transform_resume(state: PipelineState, event: ScriptEvent) -> (r: PipelineStep)
    ensures
        event matches ScriptEvent::Failed(e) ==> (r matches PipelineStep::Done(s) && s@
            == spec_failure_msg(spec_message(e))),
        event matches ScriptEvent::Output { stdout, stderr } ==> ((!spec_blank(stderr@) ==> (
        r matches PipelineStep::Done(s) && s@ == spec_failure_msg(stderr@))) && (spec_blank(
            stderr@,
        ) ==> step_models(
            r,
            spec_run(
                state.transformers.deep_view(),
                state.next_index + 1,
                stdout@,
                spec_args_view(state.extra_args),
            ),
            state.transformers.deep_view(),
            spec_args_view(state.extra_args),
        ))),
{
    match event {
        ScriptEvent::Failed(e) => PipelineStep::Done(failure_msg(&e)),
        ScriptEvent::Output { stdout, stderr } => {
            match custom_py::classify_output(stdout, stderr) {
                Err(e) => PipelineStep::Done(failure_msg(&e)),
                Ok(text) => {
                    if state.next_index >= state.transformers.len() {
                        return PipelineStep::Done(text);
                    }
                    advance(state.transformers, state.next_index + 1, text, state.extra_args)
                },
            }
        },
    }
}

/// What the external process work came to.
pub enum ScriptEvent {
    /// The process ran to completion with these streams, whatever its exit
    /// code.
    Output { stdout: String, stderr: String },
    /// The script could not be resolved or the process not started.
    Failed(TransformError),
}

/// An empty transformer chain returns the input unchanged.
pub proof fn lemma_empty_chain_identity(
    names: Seq<Seq<char>>,
    text: Seq<char>,
    args: Option<Seq<(Seq<char>, Seq<char>)>>,
)
    requires
        names.len() == 0,
    ensures
        spec_run(names, 0, text, args) == SpecOutcome::Finished(text),
{
}

/// A run that reaches an unregistered transformer name stops there with a
/// message naming it; no later step runs.
pub proof fn lemma_unknown_transformer_stops(
    names: Seq<Seq<char>>,
    i: int,
    text: Seq<char>,
    args: Option<Seq<(Seq<char>, Seq<char>)>>,
)
    requires
        0 <= i < names.len(),
        spec_get_transformer(names[i]) is None,
    ensures
        spec_run(names, i, text, args) == SpecOutcome::Finished(spec_unknown_msg(names[i])),
{
}

} // verus!

