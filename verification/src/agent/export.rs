//! Choosing the file an exported session is written to. An existing file is
//! never overwritten unless the user says so.
//!
//! The interactive choice is a dialog: each step takes what the caller
//! observed (whether a file exists, or a line the user typed) and says what
//! to do next (check a path, ask a question, write, or give up).
use crate::agent::interaction::{overwrite_answer, overwrite_answer_spec};
use crate::error::PadaError;
use crate::path::path_join;
use crate::storage::{safe_name_spec, sessions_dir_spec, DataStore};
use crate::text::{chars_of, push_str, string_from, string_of, trim, trim_spec};
use vstd::prelude::*;

verus! {

/// The path an exported session asked for as `requested` is written to.
pub open spec fn export_target_spec(store: DataStore, requested: Seq<char>) -> Seq<char> {
    path_join(
        sessions_dir_spec(store.root_spec(), "exported"@),
        safe_name_spec(requested, "session.json"@),
    )
}

/// The refusal when the target exists and nobody can be asked.
pub open spec fn target_exists_message(target: Seq<char>) -> Seq<char> {
    "导出文件已存在: "@ + target + "。请更换 --save 文件名，或在导师模式中确认覆盖"@
}

/// Resolves the export target without asking. `target_exists` says whether
/// a file is already at `store.exported_session_path(requested)`; if so the
/// export is refused, since an existing file is never overwritten silently.
pub fn available_export_target(store: &DataStore, requested: &str, target_exists: bool) -> (r: Result<
    String,
    PadaError,
>)
    ensures
        r is Ok <==> !target_exists,
        r matches Ok(t) ==> t@ == export_target_spec(*store, requested@),
        r matches Err(e) ==> (e matches PadaError::Config(m) && m@ == target_exists_message(
            export_target_spec(*store, requested@),
        )),
{
    let target = store.exported_session_path(requested);
    if target_exists {
        let mut m = string_from("导出文件已存在: ");
        push_str(&mut m, target.as_str());
        push_str(&mut m, "。请更换 --save 文件名，或在导师模式中确认覆盖");
        Err(PadaError::Config(m))
    } else {
        Ok(target)
    }
}

/// Where the export dialog stands.
#[derive(Debug, Clone, Copy, PartialEq, Eq, Structural)]
pub enum ExportStep {
    /// Waiting to learn whether a file exists at the target.
    CheckTarget,
    /// Waiting for the answer to "overwrite?".
    AskOverwrite,
    /// Waiting for a new file name.
    AskName,
}

/// The state of an interactive export: the name asked for and the step.
#[derive(Debug, Clone)]
pub struct ExportDialog {
    pub requested: String,
    pub step: ExportStep,
}

/// What the caller observed since the last action.
#[derive(Debug, Clone)]
pub enum ExportEvent {
    /// Whether a file exists at the path of the last `Check`.
    TargetExists(bool),
    /// A line the user typed; `None` when the input has ended.
    Line(Option<String>),
}

/// What the caller does next.
#[derive(Debug, Clone)]
pub enum ExportAction {
    /// Check whether a file exists at this path and report `TargetExists`.
    Check(String),
    /// Print this text, read a line and report `Line`.
    Ask(String),
    /// Write the session to this path; the dialog is over.
    Write(String),
    /// Stop with this error; the dialog is over.
    Fail(PadaError),
}

/// The abstract content of an action.
pub enum ActionView {
    Check(Seq<char>),
    Ask(Seq<char>),
    Write(Seq<char>),
    /// Stop with `PadaError::Config` and this detail.
    FailConfig(Seq<char>),
    /// Stop with another error.
    FailOther,
}

pub open spec fn action_view(a: ExportAction) -> ActionView {
    match a {
        ExportAction::Check(p) => ActionView::Check(p@),
        ExportAction::Ask(t) => ActionView::Ask(t@),
        ExportAction::Write(p) => ActionView::Write(p@),
        ExportAction::Fail(PadaError::Config(m)) => ActionView::FailConfig(m@),
        ExportAction::Fail(_) => ActionView::FailOther,
    }
}

pub open spec fn overwrite_prompt() -> Seq<char> {
    "是否覆盖已有文件？[y/N]: "@
}

pub open spec fn name_prompt() -> Seq<char> {
    "请输入新的导出文件名: "@
}

/// The detail of the error when the input ends before the dialog is over.
pub open spec fn input_ended() -> Seq<char> {
    "导出文件名输入提前结束"@
}

/// The next requested name, step and action of the dialog.
pub open spec fn dialog_next(store: DataStore, requested: Seq<char>, step: ExportStep, event: ExportEvent) -> (
    Seq<char>,
    ExportStep,
    ActionView,
) {
    let target = export_target_spec(store, requested);
    match step {
        ExportStep::CheckTarget => match event {
            ExportEvent::TargetExists(false) => (requested, step, ActionView::Write(target)),
            ExportEvent::TargetExists(true) => (
                requested,
                ExportStep::AskOverwrite,
                ActionView::Ask("导出文件已存在: "@ + target + "\n"@ + overwrite_prompt()),
            ),
            ExportEvent::Line(_) => (requested, step, ActionView::Check(target)),
        },
        ExportStep::AskOverwrite => match event {
            ExportEvent::Line(Some(a)) => match overwrite_answer_spec(a@) {
                Some(true) => (requested, step, ActionView::Write(target)),
                Some(false) => (requested, ExportStep::AskName, ActionView::Ask(name_prompt())),
                None => (requested, step, ActionView::Ask("请输入 y 或 n。\n"@ + overwrite_prompt())),
            },
            ExportEvent::Line(None) => (requested, step, ActionView::FailConfig(input_ended())),
            ExportEvent::TargetExists(_) => (requested, step, ActionView::Ask(overwrite_prompt())),
        },
        ExportStep::AskName => match event {
            ExportEvent::Line(Some(n)) => {
                let name = trim_spec(n@);
                if name.len() == 0 {
                    (requested, step, ActionView::Ask("文件名不能为空。\n"@ + name_prompt()))
                } else {
                    (name, ExportStep::CheckTarget, ActionView::Check(export_target_spec(store, name)))
                }
            },
            ExportEvent::Line(None) => (requested, step, ActionView::FailConfig(input_ended())),
            ExportEvent::TargetExists(_) => (requested, step, ActionView::Ask(name_prompt())),
        },
    }
}

impl ExportDialog {
    /// Starts choosing where `requested` is exported: the first action
    /// checks the target path.
    pub fn new(store: &DataStore, requested: &str) -> (r: (ExportDialog, ExportAction))
        ensures
            r.0.requested@ == requested@,
            r.0.step == ExportStep::CheckTarget,
            action_view(r.1) == ActionView::Check(export_target_spec(*store, requested@)),
    {
        let target = store.exported_session_path(requested);
        (ExportDialog { requested: string_from(requested), step: ExportStep::CheckTarget }, ExportAction::Check(target))
    }
}

/// One step of choosing the export target interactively: from what the
/// caller observed, the dialog moves on and says what to do next. A file
/// that exists is overwritten only after a yes; a refusal asks for a new
/// name; the end of input gives up.
pub fn choose_export_target(store: &DataStore, dialog: &mut ExportDialog, event: ExportEvent) -> (r:
    ExportAction)
    ensures
        ({
            let next = dialog_next(*store, old(dialog).requested@, old(dialog).step, event);
            &&& final(dialog).requested@ == next.0
            &&& final(dialog).step == next.1
            &&& action_view(r) == next.2
        }),
{
    let target = store.exported_session_path(dialog.requested.as_str());
    match dialog.step {
        ExportStep::CheckTarget => match event {
            ExportEvent::TargetExists(false) => ExportAction::Write(target),
            ExportEvent::TargetExists(true) => {
                dialog.step = ExportStep::AskOverwrite;
                let mut t = string_from("导出文件已存在: ");
                push_str(&mut t, target.as_str());
                push_str(&mut t, "\n");
                push_str(&mut t, "是否覆盖已有文件？[y/N]: ");
                ExportAction::Ask(t)
            },
            ExportEvent::Line(_) => ExportAction::Check(target),
        },
        ExportStep::AskOverwrite => match event {
            ExportEvent::Line(Some(a)) => match overwrite_answer(a.as_str()) {
                Some(true) => ExportAction::Write(target),
                Some(false) => {
                    dialog.step = ExportStep::AskName;
                    ExportAction::Ask(string_from("请输入新的导出文件名: "))
                },
                None => {
                    let mut t = string_from("请输入 y 或 n。\n");
                    push_str(&mut t, "是否覆盖已有文件？[y/N]: ");
                    ExportAction::Ask(t)
                },
            },
            ExportEvent::Line(None) => ExportAction::Fail(
                PadaError::Config(string_from("导出文件名输入提前结束")),
            ),
            ExportEvent::TargetExists(_) => ExportAction::Ask(string_from("是否覆盖已有文件？[y/N]: ")),
        },
        ExportStep::AskName => match event {
            ExportEvent::Line(Some(n)) => {
                let raw = chars_of(n.as_str());
                let name = trim(&raw);
                if name.len() == 0 {
                    let mut t = string_from("文件名不能为空。\n");
                    push_str(&mut t, "请输入新的导出文件名: ");
                    ExportAction::Ask(t)
                } else {
                    let name_s = string_of(&name);
                    let next = store.exported_session_path(name_s.as_str());
                    dialog.requested = name_s;
                    dialog.step = ExportStep::CheckTarget;
                    ExportAction::Check(next)
                }
            },
            ExportEvent::Line(None) => ExportAction::Fail(
                PadaError::Config(string_from("导出文件名输入提前结束")),
            ),
            ExportEvent::TargetExists(_) => ExportAction::Ask(string_from("请输入新的导出文件名: ")),
        },
    }
}

/// An existing file is never overwritten silently: the dialog says to
/// write only to the target of the name it holds, and only when the file
/// there was found missing or the user answered yes to overwriting it.
pub proof fn law_export_never_overwrites_silently(
    store: DataStore,
    requested: Seq<char>,
    step: ExportStep,
    event: ExportEvent,
    path: Seq<char>,
)
    requires
        dialog_next(store, requested, step, event).2 == ActionView::Write(path),
    ensures
        path == export_target_spec(store, requested),
        ({
            ||| step == ExportStep::CheckTarget && event == ExportEvent::TargetExists(false)
            ||| step == ExportStep::AskOverwrite && (event matches ExportEvent::Line(Some(a))
                && overwrite_answer_spec(a@) == Some(true))
        }),
{
}

} // verus!
