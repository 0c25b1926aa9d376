//! The plain engine path: one captured run without a persona.
//!
//! This is the simple entry point the application's prompt command uses:
//! the prompt goes to the engine verbatim, with a smaller fixed parameter
//! set, and the buffered output comes back without echo stripping.  The
//! caller runs the engine with the arguments `engine_args` decides and
//! hands the captured outcome back in.

use crate::errors::LlmError;
use crate::model::EngineOutcome;
use vstd::prelude::*;
use vstd::string::StringExecFns;

verus! {

/// The fixed argument list of a plain engine run: model, verbatim prompt
/// and generation length.
pub open spec fn engine_args_spec(model_path: Seq<char>, prompt: Seq<char>) -> Seq<Seq<char>> {
    seq!["--model"@, model_path, "--prompt"@, prompt, "--n-predict"@, "512"@]
}

/// The exact argument list of a plain engine run on `prompt`.
pub fn engine_args(model_path: &str, prompt: &str) -> (args: Vec<String>)
    ensures
        args.deep_view() == engine_args_spec(model_path@, prompt@),
{
    let mut args: Vec<String> = Vec::new();
    args.push(String::from_str("--model"));
    args.push(String::from_str(model_path));
    args.push(String::from_str("--prompt"));
    args.push(String::from_str(prompt));
    args.push(String::from_str("--n-predict"));
    args.push(String::from_str("512"));
    proof {
        assert(args.deep_view() =~= engine_args_spec(model_path@, prompt@));
    }
    args
}

/// Interprets one plain captured run: on success the buffered output is
/// returned whole; on a non-success exit, `EngineFailure` carrying the
/// engine's standard-error text.
pub fn run_llm_engine(outcome: &EngineOutcome) -> (r: Result<String, LlmError>)
    ensures
        outcome.success ==> (r matches Ok(t) && t@ == outcome.stdout@),
        !outcome.success ==> (r matches Err(e) && e matches LlmError::EngineFailure(s) && s@
            == outcome.stderr@),
{
    if outcome.success {
        Ok(outcome.stdout.clone())
    } else {
        Err(LlmError::EngineFailure(outcome.stderr.clone()))
    }
}

/// The response of one plain run: what `run_llm_engine` decides, passed
/// on to the caller unchanged.
pub fn run_llm(outcome: &EngineOutcome) -> (r: Result<String, LlmError>)
    ensures
        outcome.success ==> (r matches Ok(t) && t@ == outcome.stdout@),
        !outcome.success ==> (r matches Err(e) && e matches LlmError::EngineFailure(s) && s@
            == outcome.stderr@),
{
    run_llm_engine(outcome)
}

} // verus!
