//! Trace records of a diagnosis session: tool calls and the agent's decisions.
use crate::memory::now_timestamp;
use vstd::prelude::*;

verus! {

/// One tool call: which tool, with what parameters, and what it returned.
#[derive(Debug, Clone)]
pub struct ToolCall {
    /// The tool (`compile_file`, `run_tests`, `llm_chat`, ...).
    pub tool: String,
    /// A summary of the parameters.
    pub params: String,
    /// A summary of the output.
    pub output: String,
    /// When it was called, in Unix seconds.
    pub timestamp: u64,
}

impl ToolCall {
    /// Records a tool call made now.
    pub fn new(tool: String, params: String, output: String) -> (r: Self)
        ensures
            r.tool@ == tool@,
            r.params@ == params@,
            r.output@ == output@,
    {
        ToolCall { tool, params, output, timestamp: now_timestamp() }
    }
}

/// One decision of the agent and why it was made.
#[derive(Debug, Clone)]
pub struct AgentDecision {
    /// Why.
    pub reasoning: String,
    /// The stage it was made in.
    pub stage: String,
    /// When, in Unix seconds.
    pub timestamp: u64,
}

impl AgentDecision {
    /// Records a decision made now.
    pub fn new(stage: String, reasoning: String) -> (r: Self)
        ensures
            r.stage@ == stage@,
            r.reasoning@ == reasoning@,
    {
        AgentDecision { reasoning, stage, timestamp: now_timestamp() }
    }
}

} // verus!
