//! Commands of the interactive tutor mode.
use crate::models::HintLevel;
use crate::text::{
    chars_of, eq_str, is_ws, lemma_words_prepend, parse_uint, parse_uint_spec, split_whitespace, string_of, views,
    words_spec,
};
use vstd::prelude::*;

verus! {

/// A command typed in tutor mode.
#[derive(Debug, Clone, PartialEq, Eq)]
pub enum InteractiveCommand {
    Next,
    Hint(Option<u8>),
    Recheck,
    Show,
    Usage,
    Progress,
    Feedback(bool),
    Config,
    Effort(Option<String>),
    Tests(Option<String>),
    Case,
    Save(Option<String>),
    Help,
    Exit,
    Unknown(String),
}

/// The contents of an [`InteractiveCommand`].
pub enum CommandView {
    Next,
    Hint(Option<u8>),
    Recheck,
    Show,
    Usage,
    Progress,
    Feedback(bool),
    Config,
    Effort(Option<Seq<char>>),
    Tests(Option<Seq<char>>),
    Case,
    Save(Option<Seq<char>>),
    Help,
    Exit,
    Unknown(Seq<char>),
}

pub open spec fn opt_seq(o: Option<String>) -> Option<Seq<char>> {
    match o {
        Some(s) => Some(s@),
        None => None,
    }
}

impl View for InteractiveCommand {
    type V = CommandView;

    open spec fn view(&self) -> CommandView {
        match self {
            InteractiveCommand::Next => CommandView::Next,
            InteractiveCommand::Hint(n) => CommandView::Hint(*n),
            InteractiveCommand::Recheck => CommandView::Recheck,
            InteractiveCommand::Show => CommandView::Show,
            InteractiveCommand::Usage => CommandView::Usage,
            InteractiveCommand::Progress => CommandView::Progress,
            InteractiveCommand::Feedback(b) => CommandView::Feedback(*b),
            InteractiveCommand::Config => CommandView::Config,
            InteractiveCommand::Effort(v) => CommandView::Effort(opt_seq(*v)),
            InteractiveCommand::Tests(v) => CommandView::Tests(opt_seq(*v)),
            InteractiveCommand::Case => CommandView::Case,
            InteractiveCommand::Save(v) => CommandView::Save(opt_seq(*v)),
            InteractiveCommand::Help => CommandView::Help,
            InteractiveCommand::Exit => CommandView::Exit,
            InteractiveCommand::Unknown(v) => CommandView::Unknown(v@),
        }
    }
}

/// The command a line of input names: its first word selects the command
/// (with or without a leading backslash) and its second word, if any, is the argument.
pub open spec fn command_spec(input: Seq<char>) -> CommandView {
    let w = words_spec(input);
    let first = if w.len() > 0 {
        w[0]
    } else {
        Seq::<char>::empty()
    };
    let second: Option<Seq<char>> = if w.len() > 1 {
        Some(w[1])
    } else {
        None
    };
    if first == "\\next"@ || first == "next"@ {
        CommandView::Next
    } else if first == "\\hint"@ || first == "hint"@ {
        CommandView::Hint(
            match second {
                Some(v) => match parse_uint_spec(v, 255) {
                    Some(n) => Some(n as u8),
                    None => None,
                },
                None => None,
            },
        )
    } else if first == "\\recheck"@ || first == "recheck"@ {
        CommandView::Recheck
    } else if first == "\\show"@ || first == "show"@ {
        CommandView::Show
    } else if first == "\\usage"@ || first == "usage"@ {
        CommandView::Usage
    } else if first == "\\process"@ || first == "\\progress"@ || first == "process"@ || first
        == "progress"@ {
        CommandView::Progress
    } else if first == "\\understood"@ || first == "\\懂了"@ || first == "understood"@ || first == "懂了"@ {
        CommandView::Feedback(true)
    } else if first == "\\notyet"@ || first == "\\还不会"@ || first == "notyet"@ || first == "还不会"@ {
        CommandView::Feedback(false)
    } else if first == "\\config"@ || first == "config"@ {
        CommandView::Config
    } else if first == "\\effort"@ || first == "effort"@ {
        CommandView::Effort(second)
    } else if first == "\\test"@ || first == "\\tests"@ || first == "test"@ || first == "tests"@ {
        CommandView::Tests(second)
    } else if first == "\\case"@ || first == "case"@ {
        CommandView::Case
    } else if first == "\\save"@ || first == "save"@ {
        CommandView::Save(second)
    } else if first == "\\help"@ || first == "\\?"@ || first == "help"@ || first == "?"@ {
        CommandView::Help
    } else if first == "\\exit"@ || first == "\\quit"@ || first == "exit"@ || first == "quit"@ {
        CommandView::Exit
    } else {
        CommandView::Unknown(first)
    }
}

/// The names of the tutor commands.
pub open spec fn is_command_name(w: Seq<char>) -> bool {
    ||| w == "next"@
    ||| w == "hint"@
    ||| w == "recheck"@
    ||| w == "show"@
    ||| w == "usage"@
    ||| w == "process"@
    ||| w == "progress"@
    ||| w == "understood"@
    ||| w == "懂了"@
    ||| w == "notyet"@
    ||| w == "还不会"@
    ||| w == "config"@
    ||| w == "effort"@
    ||| w == "test"@
    ||| w == "tests"@
    ||| w == "case"@
    ||| w == "save"@
    ||| w == "help"@
    ||| w == "?"@
    ||| w == "exit"@
    ||| w == "quit"@
}

/// The backslash before a command is optional: a line that starts with a
/// command name and the same line with `\` in front are read as the same
/// command with the same argument.
pub proof fn law_backslash_is_optional(input: Seq<char>)
    requires
        input.len() > 0,
        !is_ws(input[0]),
        words_spec(input).len() > 0,
        is_command_name(words_spec(input)[0]),
    ensures
        command_spec(seq!['\\'] + input) == command_spec(input),
{
    lemma_words_prepend('\\', input);
    let w = words_spec(input);
    let w2 = words_spec(seq!['\\'] + input);
    assert(w2.len() == w.len());
    if w.len() > 1 {
        assert(w2[1] == w[1]);
    }
    reveal_strlit("\\next");
    reveal_strlit("next");
    reveal_strlit("\\hint");
    reveal_strlit("hint");
    reveal_strlit("\\recheck");
    reveal_strlit("recheck");
    reveal_strlit("\\show");
    reveal_strlit("show");
    reveal_strlit("\\usage");
    reveal_strlit("usage");
    reveal_strlit("\\process");
    reveal_strlit("\\progress");
    reveal_strlit("process");
    reveal_strlit("progress");
    reveal_strlit("\\understood");
    reveal_strlit("\\懂了");
    reveal_strlit("understood");
    reveal_strlit("懂了");
    reveal_strlit("\\notyet");
    reveal_strlit("\\还不会");
    reveal_strlit("notyet");
    reveal_strlit("还不会");
    reveal_strlit("\\config");
    reveal_strlit("config");
    reveal_strlit("\\effort");
    reveal_strlit("effort");
    reveal_strlit("\\test");
    reveal_strlit("\\tests");
    reveal_strlit("test");
    reveal_strlit("tests");
    reveal_strlit("\\case");
    reveal_strlit("case");
    reveal_strlit("\\save");
    reveal_strlit("save");
    reveal_strlit("\\help");
    reveal_strlit("\\?");
    reveal_strlit("help");
    reveal_strlit("?");
    reveal_strlit("\\exit");
    reveal_strlit("\\quit");
    reveal_strlit("exit");
    reveal_strlit("quit");
    assert(w2[0] == seq!['\\'] + w[0]);
    assert("\\next"@.len() == 5 && "\\next"@[0] == '\\' && "\\next"@[1] == 'n' && "\\next"@[2] == 'e');
    assert("next"@.len() == 4 && "next"@[0] == 'n' && "next"@[1] == 'e' && "next"@[2] == 'x');
    assert("\\hint"@.len() == 5 && "\\hint"@[0] == '\\' && "\\hint"@[1] == 'h' && "\\hint"@[2] == 'i');
    assert("hint"@.len() == 4 && "hint"@[0] == 'h' && "hint"@[1] == 'i' && "hint"@[2] == 'n');
    assert("\\recheck"@.len() == 8 && "\\recheck"@[0] == '\\' && "\\recheck"@[1] == 'r' && "\\recheck"@[2] == 'e');
    assert("recheck"@.len() == 7 && "recheck"@[0] == 'r' && "recheck"@[1] == 'e' && "recheck"@[2] == 'c');
    assert("\\show"@.len() == 5 && "\\show"@[0] == '\\' && "\\show"@[1] == 's' && "\\show"@[2] == 'h');
    assert("show"@.len() == 4 && "show"@[0] == 's' && "show"@[1] == 'h' && "show"@[2] == 'o');
    assert("\\usage"@.len() == 6 && "\\usage"@[0] == '\\' && "\\usage"@[1] == 'u' && "\\usage"@[2] == 's');
    assert("usage"@.len() == 5 && "usage"@[0] == 'u' && "usage"@[1] == 's' && "usage"@[2] == 'a');
    assert("\\process"@.len() == 8 && "\\process"@[0] == '\\' && "\\process"@[1] == 'p' && "\\process"@[2] == 'r');
    assert("\\progress"@.len() == 9 && "\\progress"@[0] == '\\' && "\\progress"@[1] == 'p' && "\\progress"@[2] == 'r');
    assert("process"@.len() == 7 && "process"@[0] == 'p' && "process"@[1] == 'r' && "process"@[2] == 'o');
    assert("progress"@.len() == 8 && "progress"@[0] == 'p' && "progress"@[1] == 'r' && "progress"@[2] == 'o');
    assert("\\understood"@.len() == 11 && "\\understood"@[0] == '\\' && "\\understood"@[1] == 'u' && "\\understood"@[2] == 'n');
    assert("\\懂了"@.len() == 3 && "\\懂了"@[0] == '\\' && "\\懂了"@[1] == '懂' && "\\懂了"@[2] == '了');
    assert("understood"@.len() == 10 && "understood"@[0] == 'u' && "understood"@[1] == 'n' && "understood"@[2] == 'd');
    assert("懂了"@.len() == 2 && "懂了"@[0] == '懂' && "懂了"@[1] == '了');
    assert("\\notyet"@.len() == 7 && "\\notyet"@[0] == '\\' && "\\notyet"@[1] == 'n' && "\\notyet"@[2] == 'o');
    assert("\\还不会"@.len() == 4 && "\\还不会"@[0] == '\\' && "\\还不会"@[1] == '还' && "\\还不会"@[2] == '不');
    assert("notyet"@.len() == 6 && "notyet"@[0] == 'n' && "notyet"@[1] == 'o' && "notyet"@[2] == 't');
    assert("还不会"@.len() == 3 && "还不会"@[0] == '还' && "还不会"@[1] == '不' && "还不会"@[2] == '会');
    assert("\\config"@.len() == 7 && "\\config"@[0] == '\\' && "\\config"@[1] == 'c' && "\\config"@[2] == 'o');
    assert("config"@.len() == 6 && "config"@[0] == 'c' && "config"@[1] == 'o' && "config"@[2] == 'n');
    assert("\\effort"@.len() == 7 && "\\effort"@[0] == '\\' && "\\effort"@[1] == 'e' && "\\effort"@[2] == 'f');
    assert("effort"@.len() == 6 && "effort"@[0] == 'e' && "effort"@[1] == 'f' && "effort"@[2] == 'f');
    assert("\\test"@.len() == 5 && "\\test"@[0] == '\\' && "\\test"@[1] == 't' && "\\test"@[2] == 'e');
    assert("\\tests"@.len() == 6 && "\\tests"@[0] == '\\' && "\\tests"@[1] == 't' && "\\tests"@[2] == 'e');
    assert("test"@.len() == 4 && "test"@[0] == 't' && "test"@[1] == 'e' && "test"@[2] == 's');
    assert("tests"@.len() == 5 && "tests"@[0] == 't' && "tests"@[1] == 'e' && "tests"@[2] == 's');
    assert("\\case"@.len() == 5 && "\\case"@[0] == '\\' && "\\case"@[1] == 'c' && "\\case"@[2] == 'a');
    assert("case"@.len() == 4 && "case"@[0] == 'c' && "case"@[1] == 'a' && "case"@[2] == 's');
    assert("\\save"@.len() == 5 && "\\save"@[0] == '\\' && "\\save"@[1] == 's' && "\\save"@[2] == 'a');
    assert("save"@.len() == 4 && "save"@[0] == 's' && "save"@[1] == 'a' && "save"@[2] == 'v');
    assert("\\help"@.len() == 5 && "\\help"@[0] == '\\' && "\\help"@[1] == 'h' && "\\help"@[2] == 'e');
    assert("\\?"@.len() == 2 && "\\?"@[0] == '\\' && "\\?"@[1] == '?');
    assert("help"@.len() == 4 && "help"@[0] == 'h' && "help"@[1] == 'e' && "help"@[2] == 'l');
    assert("?"@.len() == 1 && "?"@[0] == '?');
    assert("\\exit"@.len() == 5 && "\\exit"@[0] == '\\' && "\\exit"@[1] == 'e' && "\\exit"@[2] == 'x');
    assert("\\quit"@.len() == 5 && "\\quit"@[0] == '\\' && "\\quit"@[1] == 'q' && "\\quit"@[2] == 'u');
    assert("exit"@.len() == 4 && "exit"@[0] == 'e' && "exit"@[1] == 'x' && "exit"@[2] == 'i');
    assert("quit"@.len() == 4 && "quit"@[0] == 'q' && "quit"@[1] == 'u' && "quit"@[2] == 'i');
    if w[0] == "next"@ {
        assert(w2[0] =~= "\\next"@);
        assert(w[0][0] == 'n' && w[0][1] == 'e' && w[0][2] == 'x' && w2[0][0] == '\\' && w2[0][1] == 'n' && w2[0][2] == 'e');
    } else if w[0] == "hint"@ {
        assert(w2[0] =~= "\\hint"@);
        assert(w[0][0] == 'h' && w[0][1] == 'i' && w[0][2] == 'n' && w2[0][0] == '\\' && w2[0][1] == 'h' && w2[0][2] == 'i');
    } else if w[0] == "recheck"@ {
        assert(w2[0] =~= "\\recheck"@);
        assert(w[0][0] == 'r' && w[0][1] == 'e' && w[0][2] == 'c' && w2[0][0] == '\\' && w2[0][1] == 'r' && w2[0][2] == 'e');
    } else if w[0] == "show"@ {
        assert(w2[0] =~= "\\show"@);
        assert(w[0][0] == 's' && w[0][1] == 'h' && w[0][2] == 'o' && w2[0][0] == '\\' && w2[0][1] == 's' && w2[0][2] == 'h');
    } else if w[0] == "usage"@ {
        assert(w2[0] =~= "\\usage"@);
        assert(w[0][0] == 'u' && w[0][1] == 's' && w[0][2] == 'a' && w2[0][0] == '\\' && w2[0][1] == 'u' && w2[0][2] == 's');
    } else if w[0] == "process"@ {
        assert(w2[0] =~= "\\process"@);
        assert(w[0][0] == 'p' && w[0][1] == 'r' && w[0][2] == 'o' && w2[0][0] == '\\' && w2[0][1] == 'p' && w2[0][2] == 'r');
    } else if w[0] == "progress"@ {
        assert(w2[0] =~= "\\progress"@);
        assert(w[0][0] == 'p' && w[0][1] == 'r' && w[0][2] == 'o' && w2[0][0] == '\\' && w2[0][1] == 'p' && w2[0][2] == 'r');
    } else if w[0] == "understood"@ {
        assert(w2[0] =~= "\\understood"@);
        assert(w[0][0] == 'u' && w[0][1] == 'n' && w[0][2] == 'd' && w2[0][0] == '\\' && w2[0][1] == 'u' && w2[0][2] == 'n');
    } else if w[0] == "懂了"@ {
        assert(w2[0] =~= "\\懂了"@);
        assert(w[0][0] == '懂' && w[0][1] == '了' && w2[0][0] == '\\' && w2[0][1] == '懂' && w2[0][2] == '了');
    } else if w[0] == "notyet"@ {
        assert(w2[0] =~= "\\notyet"@);
        assert(w[0][0] == 'n' && w[0][1] == 'o' && w[0][2] == 't' && w2[0][0] == '\\' && w2[0][1] == 'n' && w2[0][2] == 'o');
    } else if w[0] == "还不会"@ {
        assert(w2[0] =~= "\\还不会"@);
        assert(w[0][0] == '还' && w[0][1] == '不' && w[0][2] == '会' && w2[0][0] == '\\' && w2[0][1] == '还' && w2[0][2] == '不');
    } else if w[0] == "config"@ {
        assert(w2[0] =~= "\\config"@);
        assert(w[0][0] == 'c' && w[0][1] == 'o' && w[0][2] == 'n' && w2[0][0] == '\\' && w2[0][1] == 'c' && w2[0][2] == 'o');
    } else if w[0] == "effort"@ {
        assert(w2[0] =~= "\\effort"@);
        assert(w[0][0] == 'e' && w[0][1] == 'f' && w[0][2] == 'f' && w2[0][0] == '\\' && w2[0][1] == 'e' && w2[0][2] == 'f');
    } else if w[0] == "test"@ {
        assert(w2[0] =~= "\\test"@);
        assert(w[0][0] == 't' && w[0][1] == 'e' && w[0][2] == 's' && w2[0][0] == '\\' && w2[0][1] == 't' && w2[0][2] == 'e');
    } else if w[0] == "tests"@ {
        assert(w2[0] =~= "\\tests"@);
        assert(w[0][0] == 't' && w[0][1] == 'e' && w[0][2] == 's' && w2[0][0] == '\\' && w2[0][1] == 't' && w2[0][2] == 'e');
    } else if w[0] == "case"@ {
        assert(w2[0] =~= "\\case"@);
        assert(w[0][0] == 'c' && w[0][1] == 'a' && w[0][2] == 's' && w2[0][0] == '\\' && w2[0][1] == 'c' && w2[0][2] == 'a');
    } else if w[0] == "save"@ {
        assert(w2[0] =~= "\\save"@);
        assert(w[0][0] == 's' && w[0][1] == 'a' && w[0][2] == 'v' && w2[0][0] == '\\' && w2[0][1] == 's' && w2[0][2] == 'a');
    } else if w[0] == "help"@ {
        assert(w2[0] =~= "\\help"@);
        assert(w[0][0] == 'h' && w[0][1] == 'e' && w[0][2] == 'l' && w2[0][0] == '\\' && w2[0][1] == 'h' && w2[0][2] == 'e');
    } else if w[0] == "?"@ {
        assert(w2[0] =~= "\\?"@);
        assert(w[0][0] == '?' && w2[0][0] == '\\' && w2[0][1] == '?');
    } else if w[0] == "exit"@ {
        assert(w2[0] =~= "\\exit"@);
        assert(w[0][0] == 'e' && w[0][1] == 'x' && w[0][2] == 'i' && w2[0][0] == '\\' && w2[0][1] == 'e' && w2[0][2] == 'x');
    } else if w[0] == "quit"@ {
        assert(w2[0] =~= "\\quit"@);
        assert(w[0][0] == 'q' && w[0][1] == 'u' && w[0][2] == 'i' && w2[0][0] == '\\' && w2[0][1] == 'q' && w2[0][2] == 'u');
    }
}

/// Reads one line of tutor-mode input as a command.
pub fn parse_command(input: &str) -> (r: InteractiveCommand)
    ensures
        r@ == command_spec(input@),
{
    let all = chars_of(input);
    let w = split_whitespace(&all);
    let first: Vec<char> = if w.len() > 0 {
        crate::text::slice_chars(&w[0], 0, w[0].len())
    } else {
        Vec::new()
    };
    assert(w.len() > 0 ==> first@ == views(w@)[0]);
    assert(w.len() == 0 ==> first@ =~= Seq::<char>::empty());
    let second: Option<String> = if w.len() > 1 {
        assert(views(w@)[1] == w@[1]@);
        Some(string_of(&w[1]))
    } else {
        None
    };
    if eq_str(&first, "\\next") || eq_str(&first, "next") {
        InteractiveCommand::Next
    } else if eq_str(&first, "\\hint") || eq_str(&first, "hint") {
        let n = if w.len() > 1 {
            assert(views(w@)[1] == w@[1]@);
            match parse_uint(&w[1], 255) {
                Some(n) => Some(n as u8),
                None => None,
            }
        } else {
            None
        };
        InteractiveCommand::Hint(n)
    } else if eq_str(&first, "\\recheck") || eq_str(&first, "recheck") {
        InteractiveCommand::Recheck
    } else if eq_str(&first, "\\show") || eq_str(&first, "show") {
        InteractiveCommand::Show
    } else if eq_str(&first, "\\usage") || eq_str(&first, "usage") {
        InteractiveCommand::Usage
    } else if eq_str(&first, "\\process") || eq_str(&first, "\\progress") || eq_str(&first, "process")
        || eq_str(&first, "progress") {
        InteractiveCommand::Progress
    } else if eq_str(&first, "\\understood") || eq_str(&first, "\\懂了") || eq_str(&first, "understood") || eq_str(
        &first,
        "懂了",
    ) {
        InteractiveCommand::Feedback(true)
    } else if eq_str(&first, "\\notyet") || eq_str(&first, "\\还不会") || eq_str(&first, "notyet") || eq_str(
        &first,
        "还不会",
    ) {
        InteractiveCommand::Feedback(false)
    } else if eq_str(&first, "\\config") || eq_str(&first, "config") {
        InteractiveCommand::Config
    } else if eq_str(&first, "\\effort") || eq_str(&first, "effort") {
        InteractiveCommand::Effort(second)
    } else if eq_str(&first, "\\test") || eq_str(&first, "\\tests") || eq_str(&first, "test")
        || eq_str(&first, "tests") {
        InteractiveCommand::Tests(second)
    } else if eq_str(&first, "\\case") || eq_str(&first, "case") {
        InteractiveCommand::Case
    } else if eq_str(&first, "\\save") || eq_str(&first, "save") {
        InteractiveCommand::Save(second)
    } else if eq_str(&first, "\\help") || eq_str(&first, "\\?") || eq_str(&first, "help") || eq_str(&first, "?") {
        InteractiveCommand::Help
    } else if eq_str(&first, "\\exit") || eq_str(&first, "\\quit") || eq_str(&first, "exit") || eq_str(&first, "quit") {
        InteractiveCommand::Exit
    } else {
        InteractiveCommand::Unknown(string_of(&first))
    }
}

/// The number (1 to 5) of a hint level.
pub fn hint_number(level: HintLevel) -> (r: u8)
    ensures
        r == crate::analysis::hint::level_number(level),
{
    match level {
        HintLevel::Category => 1,
        HintLevel::Location => 2,
        HintLevel::Concept => 3,
        HintLevel::Direction => 4,
        HintLevel::Solution => 5,
    }
}

/// New tests are new evidence: hints start again from level 1.
pub fn reset_hint_for_new_tests(level: &mut HintLevel)
    ensures
        *final(level) == HintLevel::Category,
{
    *level = HintLevel::Category;
}

pub open spec fn help_spec() -> Seq<char> {
    "命令: next  hint [1-5]  effort [模式]  recheck  show  test <文件>  case  progress  understood/notyet  usage  config  save [文件]  help  exit"@
}

/// The list of tutor-mode commands.
pub fn help_text() -> (r: &'static str)
    ensures
        r@ == help_spec(),
{
    "命令: next  hint [1-5]  effort [模式]  recheck  show  test <文件>  case  progress  understood/notyet  usage  config  save [文件]  help  exit"
}

/// The answer to "overwrite the existing export file?": `Some(true)` for
/// `y`/`yes`, `Some(false)` for an empty answer, `n` or `no` (ASCII case
/// ignored, after trimming), `None` for anything else.
pub open spec fn overwrite_answer_spec(answer: Seq<char>) -> Option<bool> {
    let a = crate::text::lower_seq(crate::text::trim_spec(answer));
    if a == "y"@ || a == "yes"@ {
        Some(true)
    } else if a == Seq::<char>::empty() || a == "n"@ || a == "no"@ {
        Some(false)
    } else {
        None
    }
}

/// Reads the answer to the overwrite question of an export.
pub fn overwrite_answer(answer: &str) -> (r: Option<bool>)
    ensures
        r == overwrite_answer_spec(answer@),
{
    let raw = chars_of(answer);
    let t = crate::text::trim(&raw);
    let a = crate::text::to_ascii_lower(&t);
    if eq_str(&a, "y") || eq_str(&a, "yes") {
        Some(true)
    } else if a.len() == 0 || eq_str(&a, "n") || eq_str(&a, "no") {
        assert(a.len() == 0 ==> a@ =~= Seq::<char>::empty());
        Some(false)
    } else {
        None
    }
}

} // verus!
