//! Model tasks that the user can stop from the terminal.
use crate::agent::llm::LlmResponse;
use crate::error::PadaError;
use crate::text::{chars_of, eq_str, lower_seq, to_ascii_lower, trim, trim_spec};
use vstd::prelude::*;

verus! {

/// How a model task ended.
pub enum ModelTaskOutcome {
    /// The model answered, or failed.
    Completed(Result<LlmResponse, PadaError>),
    /// The user stopped it.
    Cancelled,
}

pub open spec fn cancel_word(t: Seq<char>) -> bool {
    t == "q"@ || t == "cancel"@ || t == "取消"@
}

/// Whether a line typed during a model task asks to stop it: `q`, `cancel`
/// (in any ASCII case) or `取消`, with surrounding white space ignored.
pub fn is_cancel_command(input: &str) -> (r: bool)
    ensures
        r == cancel_word(lower_seq(trim_spec(input@))),
{
    let t = trim(&chars_of(input));
    let l = to_ascii_lower(&t);
    eq_str(&l, "q") || eq_str(&l, "cancel") || eq_str(&l, "取消")
}

/// Whether a line typed during a model task stops it: a cancel command, or
/// exactly `exit` or `quit` after trimming.
pub fn stops_model_task(input: &str) -> (r: bool)
    ensures
        r == (cancel_word(lower_seq(trim_spec(input@))) || trim_spec(input@) == "exit"@
            || trim_spec(input@) == "quit"@),
{
    if is_cancel_command(input) {
        return true;
    }
    let t = trim(&chars_of(input));
    eq_str(&t, "exit") || eq_str(&t, "quit")
}

} // verus!
