//! A bridge to a coding agent that runs as a subprocess and speaks
//! line-delimited JSON on its standard input and output: the wire model and
//! its JSON forms, the state a connection keeps between requests and
//! incoming envelopes, and the decisions of the I/O pump.
use vstd::prelude::*;

pub mod connection;
pub mod content;
pub mod json;
pub mod launch;
pub mod message;
pub mod text;
pub mod tool_ids;

verus! {

/// The agent server whose agent runs as a subprocess and speaks line-delimited JSON.
#[derive(Clone, Copy, Debug)]
pub struct ClaudeCode;

impl ClaudeCode {
    /// The message of an empty thread: none.
    pub fn empty_state_message(&self) -> (r: &'static str)
        ensures
            r@ == ""@,
    {
        ""
    }

    /// Whether a permission can be granted once for all: not with this agent.
    pub fn supports_always_allow(&self) -> (r: bool)
        ensures
            !r,
    {
        false
    }
}

} // verus!
