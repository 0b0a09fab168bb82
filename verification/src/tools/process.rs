//! Stopping a running command from the terminal.
use crate::text::{chars_of, eq_str, lower_seq, to_ascii_lower, trim, trim_spec};
use vstd::prelude::*;

verus! {

/// The words that stop a running command.
pub open spec fn stop_word(t: Seq<char>) -> bool {
    t == "q"@ || t == "quit"@ || t == "exit"@ || t == "cancel"@ || t == "取消"@
}

/// Whether the terminal asked to stop: `pending` is the line waiting on
/// standard input (`None` when nothing was ready or it could not be read);
/// it stops the command when, trimmed and in ASCII lower case, it is `q`,
/// `quit`, `exit`, `cancel` or `取消`.
pub fn terminal_cancelled(pending: Option<&str>) -> (r: bool)
    ensures
        r == (pending matches Some(line) && stop_word(lower_seq(trim_spec(line@)))),
{
    match pending {
        None => false,
        Some(line) => {
            let t = trim(&chars_of(line));
            let l = to_ascii_lower(&t);
            eq_str(&l, "q") || eq_str(&l, "quit") || eq_str(&l, "exit") || eq_str(&l, "cancel") || eq_str(
                &l,
                "取消",
            )
        },
    }
}

} // verus!
