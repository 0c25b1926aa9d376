//! A verified inference-session manager for a file-based LLM engine.
//!
//! The library owns the logic of a session: rendering a persona
//! configuration into a prompt preamble, composing prompts, deciding the
//! fixed argument list handed to the external engine, interpreting the
//! engine's outcome, supervising a streaming run, and stripping the echoed
//! prompt from captured output.  The surrounding application performs the
//! actual file reads and process management and hands the results back in
//! as plain values.

pub mod engine;
pub mod errors;
pub mod model;
pub mod persona;
pub mod sanitize;
pub mod supervisor;
