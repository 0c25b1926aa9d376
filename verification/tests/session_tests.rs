use llama_session::engine::{engine_args, run_llm, run_llm_engine};
use llama_session::errors::LlmError;
use llama_session::model::{initialize_model, EngineOutcome, LlamaModel};
use llama_session::persona::{render_preamble, PersonaConfig};
use llama_session::sanitize::{strip_echo, strip_prefix_echo};

fn sample_config() -> PersonaConfig {
    PersonaConfig {
        name: "Nova".to_string(),
        description: "A helpful assistant.".to_string(),
        tone: "Friendly.".to_string(),
        directives: vec!["Be kind.".to_string(), "Be brief.".to_string()],
        nsfw_policy: ": none".to_string(),
        censorship: "No censorship.".to_string(),
        disclaimer_policy: "No disclaimers.".to_string(),
        tagline: "Enjoy.".to_string(),
        response_directive: "Answer directly.".to_string(),
    }
}

fn sample_model() -> LlamaModel {
    initialize_model("weights.gguf".to_string(), true, Ok(sample_config())).unwrap()
}

#[test]
fn preamble_field_order() {
    let expected = "A helpful assistant.\nFriendly.\n\n- Be kind.\n- Be brief.\n\
                    nsfw_policy: none\nNo censorship.\nNo disclaimers.\nEnjoy.\n\
                    Answer directly.";
    assert_eq!(render_preamble(&sample_config()), expected);
}

#[test]
fn preamble_empty_directives() {
    let mut c = sample_config();
    c.directives = Vec::new();
    let expected = "A helpful assistant.\nFriendly.\n\n- \n\
                    nsfw_policy: none\nNo censorship.\nNo disclaimers.\nEnjoy.\n\
                    Answer directly.";
    assert_eq!(render_preamble(&c), expected);
}

#[test]
fn preamble_single_directive() {
    let mut c = sample_config();
    c.directives = vec!["Stay on topic.".to_string()];
    let expected = "A helpful assistant.\nFriendly.\n\n- Stay on topic.\n\
                    nsfw_policy: none\nNo censorship.\nNo disclaimers.\nEnjoy.\n\
                    Answer directly.";
    assert_eq!(render_preamble(&c), expected);
}

#[test]
fn missing_model_fails_before_config_is_read() {
    // The check stage refuses first, so the configuration is never read:
    // the staged constructor has nothing to hand to `load`.
    let r = LlamaModel::check_model("no/such/model.gguf".to_string(), false);
    assert_eq!(r.unwrap_err(), LlmError::ModelNotFound);

    // Even when a config outcome is already at hand — here the failure the
    // unreadable config path would have produced — the absent model wins
    // and the reported kind is ModelNotFound, not ConfigNotFound.
    let r = initialize_model(
        "no/such/model.gguf".to_string(),
        false,
        Err(LlmError::ConfigNotFound),
    );
    assert_eq!(r.unwrap_err(), LlmError::ModelNotFound);
}

#[test]
fn existing_model_with_bad_config_reports_config_error() {
    let r = initialize_model(
        "weights.gguf".to_string(),
        true,
        Err(LlmError::ConfigParseError("missing field `tone`".to_string())),
    );
    assert_eq!(
        r.unwrap_err(),
        LlmError::ConfigParseError("missing field `tone`".to_string())
    );
}

#[test]
fn strip_echo_removes_prompt_and_leading_whitespace() {
    assert_eq!(
        strip_echo("Hello, how are you?\nI am fine.", "Hello, how are you?"),
        "I am fine."
    );
}

#[test]
fn strip_echo_without_occurrence_returns_raw_output() {
    assert_eq!(strip_echo("unrelated text", "not present"), "unrelated text");
}

#[test]
fn strip_echo_uses_first_occurrence() {
    assert_eq!(strip_echo("abXabY", "ab"), "XabY");
}

#[test]
fn strip_echo_with_empty_prompt_trims_leading_whitespace() {
    assert_eq!(strip_echo("  \n reply", ""), "reply");
}

#[test]
fn strip_echo_trims_unicode_whitespace() {
    assert_eq!(strip_echo("q:\u{a0}\u{3000} done", "q:"), "done");
}

#[test]
fn strip_prefix_echo_removes_leading_prompt() {
    assert_eq!(strip_prefix_echo("Hi there\n  All good.", "Hi there"), "All good.");
}

#[test]
fn strip_prefix_echo_ignores_prompt_elsewhere() {
    assert_eq!(strip_prefix_echo("well Hi there", "Hi there"), "well Hi there");
}

#[test]
fn strip_prefix_echo_with_prompt_longer_than_output() {
    assert_eq!(strip_prefix_echo("Hi", "Hi there"), "Hi");
}

#[test]
fn compose_prompt_joins_preamble_blank_line_prompt() {
    let m = sample_model();
    let expected = format!("{}\n\n{}", render_preamble(&sample_config()), "Hi there");
    assert_eq!(m.compose_prompt("Hi there"), expected);
}

#[test]
fn inference_args_are_the_fixed_contract() {
    let m = sample_model();
    let composed = m.compose_prompt("Hi");
    let expected: Vec<String> = [
        "-m",
        "weights.gguf",
        "-p",
        composed.as_str(),
        "--temp",
        "0.7",
        "--n-predict",
        "256",
        "--top_p",
        "0.95",
        "--top_k",
        "40",
        "--repeat_penalty",
        "1.1",
        "--repeat_last_n",
        "64",
    ]
    .iter()
    .map(|s| s.to_string())
    .collect();
    assert_eq!(m.inference_args("Hi"), expected);
}

#[test]
fn stream_args_use_streaming_defaults() {
    let m = sample_model();
    let composed = m.compose_prompt("Hi");
    let expected: Vec<String> = [
        "-m",
        "weights.gguf",
        "-p",
        composed.as_str(),
        "--temp",
        "0.70",
        "--n-predict",
        "512",
        "--top_p",
        "0.98",
        "--top_k",
        "40",
        "--repeat_penalty",
        "1.1",
        "--repeat_last_n",
        "64",
    ]
    .iter()
    .map(|s| s.to_string())
    .collect();
    let (args, _sup) = m.run_llm_stream("Hi");
    assert_eq!(args, expected);
}

#[test]
fn engine_args_are_the_fixed_contract() {
    let expected: Vec<String> = ["--model", "weights.gguf", "--prompt", "Hi", "--n-predict", "512"]
        .iter()
        .map(|s| s.to_string())
        .collect();
    assert_eq!(engine_args("weights.gguf", "Hi"), expected);
}

#[test]
fn engine_failure_carries_stderr() {
    let m = sample_model();
    let outcome = EngineOutcome {
        success: false,
        stdout: String::new(),
        stderr: "oom".to_string(),
    };
    let r = m.run_inference("Hi", &outcome);
    assert_eq!(r.unwrap_err(), LlmError::EngineFailure("oom".to_string()));
}

#[test]
fn successful_inference_strips_the_callers_prompt() {
    let m = sample_model();
    let outcome = EngineOutcome {
        success: true,
        stdout: "some preamble echo\n\nHi there\n  I am Nova.".to_string(),
        stderr: String::new(),
    };
    let r = m.run_inference("Hi there", &outcome);
    assert_eq!(r.unwrap(), "I am Nova.");
}

#[test]
fn inference_without_echo_returns_output_unchanged() {
    let m = sample_model();
    let outcome = EngineOutcome {
        success: true,
        stdout: "pure completion".to_string(),
        stderr: String::new(),
    };
    assert_eq!(m.run_inference("Hi", &outcome).unwrap(), "pure completion");
}

#[test]
fn run_llm_engine_returns_raw_output_on_success() {
    let outcome = EngineOutcome {
        success: true,
        stdout: "generated text".to_string(),
        stderr: String::new(),
    };
    assert_eq!(run_llm_engine(&outcome).unwrap(), "generated text");
}

#[test]
fn run_llm_engine_fails_with_stderr_text() {
    let outcome = EngineOutcome {
        success: false,
        stdout: String::new(),
        stderr: "bad weights".to_string(),
    };
    assert_eq!(
        run_llm_engine(&outcome).unwrap_err(),
        LlmError::EngineFailure("bad weights".to_string())
    );
}

#[test]
fn run_llm_forwards_the_engine_result() {
    let ok = EngineOutcome {
        success: true,
        stdout: "fine".to_string(),
        stderr: String::new(),
    };
    assert_eq!(run_llm(&ok).unwrap(), "fine");
    let bad = EngineOutcome {
        success: false,
        stdout: String::new(),
        stderr: "boom".to_string(),
    };
    assert_eq!(run_llm(&bad).unwrap_err(), LlmError::EngineFailure("boom".to_string()));
}

#[test]
fn error_messages_are_human_readable() {
    assert_eq!(LlmError::ModelNotFound.message(), "Model not found");
    assert_eq!(LlmError::ConfigNotFound.message(), "Prompt file not found");
    assert_eq!(
        LlmError::ConfigParseError("eof".to_string()).message(),
        "Failed to parse JSON: eof"
    );
    assert_eq!(
        LlmError::SpawnError("denied".to_string()).message(),
        "Failed to start LLM process: denied"
    );
    assert_eq!(
        LlmError::EngineFailure("oom".to_string()).message(),
        "LLM process failed: oom"
    );
    assert_eq!(
        LlmError::EngineExitError.message(),
        "LLM process exited with error"
    );
    assert_eq!(LlmError::SinkFailure.message(), "Failed to emit chunk");
}
