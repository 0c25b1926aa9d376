//! The inference session: a model path paired with a rendered preamble.
//!
//! A `LlamaModel` is built once per persona+model pairing and reused
//! across many inference calls.  Construction is staged so that the
//! persona configuration is only ever read for a model that exists: the
//! caller first performs the existence check and trades its result for a
//! `CheckedModelPath`, and only then reads and parses the configuration.
//! The blocking work of a call — spawning the engine, reading its pipes,
//! waiting on it — is the caller's; the session decides the argument
//! list, interprets the captured outcome and sanitises the output.

use crate::errors::LlmError;
use crate::persona::PersonaConfig;
use crate::persona::preamble_spec;
use crate::persona::render_preamble;
use crate::sanitize::strip_echo;
use crate::sanitize::strip_echo_spec;
use crate::supervisor::StreamSupervisor;
use crate::supervisor::SupervisorState;
use vstd::prelude::*;
use vstd::string::StringExecFns;

verus! {

/// A model path that has passed the existence check.  The only way to
/// obtain one is `LlamaModel::check_model`, so holding one witnesses that
/// the check was made before anything else was read.
#[derive(Debug)]
pub struct CheckedModelPath {
    path: String,
}

impl CheckedModelPath {
    /// The checked path.
    pub closed spec fn path_spec(&self) -> Seq<char> {
        self.path@
    }
}

/// Everything one captured engine run produced: whether it exited
/// successfully, and its buffered standard output and standard error.
#[derive(Debug, Clone, PartialEq)]
pub struct EngineOutcome {
    pub success: bool,
    pub stdout: String,
    pub stderr: String,
}

/// The mathematical content of a session: its model path and its rendered
/// preamble, both immutable after construction.
pub struct LlamaModelView {
    pub model_path: Seq<char>,
    pub model_prompt: Seq<char>,
}

/// An inference session: the resolved model-weights path and the preamble
/// rendered once from the persona.  Safe to reuse across many calls; each
/// call gets its own engine process.
#[derive(Debug)]
pub struct LlamaModel {
    model_path: String,
    model_prompt: String,
}

impl View for LlamaModel {
    type V = LlamaModelView;

    closed spec fn view(&self) -> LlamaModelView {
        LlamaModelView { model_path: self.model_path@, model_prompt: self.model_prompt@ }
    }
}

/// A composed prompt: the session preamble, a blank line, then the
/// caller's prompt, sent verbatim to the engine.
pub open spec fn composed_prompt_spec(preamble: Seq<char>, prompt: Seq<char>) -> Seq<char> {
    preamble + "\n\n"@ + prompt
}

/// The fixed argument list of a captured inference run: model path,
/// composed prompt, and the fixed sampling parameters of the synchronous
/// path.
pub open spec fn inference_args_spec(model_path: Seq<char>, composed: Seq<char>) -> Seq<Seq<char>> {
    seq![
        "-m"@,
        model_path,
        "-p"@,
        composed,
        "--temp"@,
        "0.7"@,
        "--n-predict"@,
        "256"@,
        "--top_p"@,
        "0.95"@,
        "--top_k"@,
        "40"@,
        "--repeat_penalty"@,
        "1.1"@,
        "--repeat_last_n"@,
        "64"@,
    ]
}

/// The fixed argument list of a streaming run: the same parameter
/// families with the streaming defaults.
pub open spec fn stream_args_spec(model_path: Seq<char>, composed: Seq<char>) -> Seq<Seq<char>> {
    seq![
        "-m"@,
        model_path,
        "-p"@,
        composed,
        "--temp"@,
        "0.70"@,
        "--n-predict"@,
        "512"@,
        "--top_p"@,
        "0.98"@,
        "--top_k"@,
        "40"@,
        "--repeat_penalty"@,
        "1.1"@,
        "--repeat_last_n"@,
        "64"@,
    ]
}

impl LlamaModel {
    /// Decides whether construction may proceed, from the result of the
    /// model-file existence check the caller performed.  When the model is
    /// absent the session fails with `ModelNotFound` here, before the
    /// persona configuration is touched.
    pub fn check_model(model_path: String, model_exists: bool) -> (r: Result<
        CheckedModelPath,
        LlmError,
    >)
        ensures
            model_exists ==> (r matches Ok(p) && p.path_spec() == model_path@),
            !model_exists ==> (r matches Err(e) && e == LlmError::ModelNotFound),
    {
        if model_exists {
            Ok(CheckedModelPath { path: model_path })
        } else {
            Err(LlmError::ModelNotFound)
        }
    }

    /// Completes construction from the outcome of reading and parsing the
    /// persona configuration: a parsed persona yields a session whose
    /// preamble is its rendering, and a read or parse failure is passed on
    /// unchanged.
    pub fn load(model: CheckedModelPath, config: Result<PersonaConfig, LlmError>) -> (r: Result<
        LlamaModel,
        LlmError,
    >)
        ensures
            config matches Ok(c) ==> (r matches Ok(m) && m@.model_path == model.path_spec()
                && m@.model_prompt == preamble_spec(c@)),
            config matches Err(e) ==> (r matches Err(e2) && e2 == e),
    {
        match config {
            Ok(c) => Ok(
                LlamaModel { model_path: model.path, model_prompt: render_preamble(&c) },
            ),
            Err(e) => Err(e),
        }
    }

    /// The composed prompt of one call: preamble, blank line, prompt.
    /// Never persisted; it exists only for the duration of the call.
    pub fn compose_prompt(&self, prompt: &str) -> (r: String)
        ensures
            r@ == composed_prompt_spec(self@.model_prompt, prompt@),
    {
        let mut r = self.model_prompt.clone();
        r.append("\n\n");
        r.append(prompt);
        r
    }

    /// The exact argument list of a captured inference run on `prompt`.
    pub fn inference_args(&self, prompt: &str) -> (args: Vec<String>)
        ensures
            args.deep_view() == inference_args_spec(
                self@.model_path,
                composed_prompt_spec(self@.model_prompt, prompt@),
            ),
    {
        let mut args: Vec<String> = Vec::new();
        args.push(String::from_str("-m"));
        args.push(self.model_path.clone());
        args.push(String::from_str("-p"));
        args.push(self.compose_prompt(prompt));
        args.push(String::from_str("--temp"));
        args.push(String::from_str("0.7"));
        args.push(String::from_str("--n-predict"));
        args.push(String::from_str("256"));
        args.push(String::from_str("--top_p"));
        args.push(String::from_str("0.95"));
        args.push(String::from_str("--top_k"));
        args.push(String::from_str("40"));
        args.push(String::from_str("--repeat_penalty"));
        args.push(String::from_str("1.1"));
        args.push(String::from_str("--repeat_last_n"));
        args.push(String::from_str("64"));
        proof {
            assert(args.deep_view() =~= inference_args_spec(
                self@.model_path,
                composed_prompt_spec(self@.model_prompt, prompt@),
            ));
        }
        args
    }

    /// The exact argument list of a streaming run on `prompt`.
    pub fn stream_args(&self, prompt: &str) -> (args: Vec<String>)
        ensures
            args.deep_view() == stream_args_spec(
                self@.model_path,
                composed_prompt_spec(self@.model_prompt, prompt@),
            ),
    {
        let mut args: Vec<String> = Vec::new();
        args.push(String::from_str("-m"));
        args.push(self.model_path.clone());
        args.push(String::from_str("-p"));
        args.push(self.compose_prompt(prompt));
        args.push(String::from_str("--temp"));
        args.push(String::from_str("0.70"));
        args.push(String::from_str("--n-predict"));
        args.push(String::from_str("512"));
        args.push(String::from_str("--top_p"));
        args.push(String::from_str("0.98"));
        args.push(String::from_str("--top_k"));
        args.push(String::from_str("40"));
        args.push(String::from_str("--repeat_penalty"));
        args.push(String::from_str("1.1"));
        args.push(String::from_str("--repeat_last_n"));
        args.push(String::from_str("64"));
        proof {
            assert(args.deep_view() =~= stream_args_spec(
                self@.model_path,
                composed_prompt_spec(self@.model_prompt, prompt@),
            ));
        }
        args
    }

    /// Interprets one captured engine run on `prompt`: on success, the
    /// buffered output with the echo of the caller's original prompt — not
    /// the composed prompt — stripped; on a non-success exit,
    /// `EngineFailure` carrying the engine's standard-error text.
    pub fn run_inference(&self, prompt: &str, outcome: &EngineOutcome) -> (r: Result<
        String,
        LlmError,
    >)
        ensures
            outcome.success ==> (r matches Ok(t) && t@ == strip_echo_spec(
                outcome.stdout@,
                prompt@,
            )),
            !outcome.success ==> (r matches Err(e) && e matches LlmError::EngineFailure(s) && s@
                == outcome.stderr@),
    {
        if outcome.success {
            Ok(strip_echo(outcome.stdout.as_str(), prompt))
        } else {
            Err(LlmError::EngineFailure(outcome.stderr.clone()))
        }
    }

    /// Begins a streaming run on `prompt`: the exact argument list for the
    /// engine, and a fresh supervisor that decides the rest of the run.
    /// Streaming emits raw chunks; no echo is stripped on this path.
    pub fn run_llm_stream(&self, prompt: &str) -> (r: (Vec<String>, StreamSupervisor))
        ensures
            r.0.deep_view() == stream_args_spec(
                self@.model_path,
                composed_prompt_spec(self@.model_prompt, prompt@),
            ),
            r.1@ == SupervisorState::Reading,
    {
        (self.stream_args(prompt), StreamSupervisor::new())
    }
}

/// One-shot session construction from the two outside observations: the
/// model-existence check and the configuration outcome.  An absent model
/// wins over any configuration outcome, so the reported kind is
/// `ModelNotFound` even when the configuration could not have been read.
pub fn initialize_model(
    model_path: String,
    model_exists: bool,
    config: Result<PersonaConfig, LlmError>,
) -> (r: Result<LlamaModel, LlmError>)
    ensures
        !model_exists ==> (r matches Err(e) && e == LlmError::ModelNotFound),
        model_exists ==> (config matches Ok(c) ==> (r matches Ok(m) && m@.model_path
            == model_path@ && m@.model_prompt == preamble_spec(c@))),
        model_exists ==> (config matches Err(e) ==> (r matches Err(e2) && e2 == e)),
{
    match LlamaModel::check_model(model_path, model_exists) {
        Ok(checked) => LlamaModel::load(checked, config),
        Err(e) => Err(e),
    }
}

} // verus!
