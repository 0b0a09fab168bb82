//! Progress reporting, cooperative cancellation and guided step-by-step mode.
use std::sync::atomic::AtomicBool;
use std::sync::atomic::Ordering;
use std::sync::Arc;
use crate::analysis::hint::{hint_level_as_number, level_number};
use crate::config::effort::{mode_name_spec, EffortMode};
use crate::models::HintLevel;
use crate::text::{
    chars_of, decimal, eq_str, lower_seq, push_decimal, push_str, string_from, to_ascii_lower, trim, trim_spec,
};
use vstd::prelude::*;

verus! {

/// A cooperative cancellation flag shared between threads. Long tasks check it
/// at their checkpoints and stop early once it is set.
#[derive(Debug, Clone)]
pub struct CancelToken {
    cancelled: Arc<AtomicBool>,
}

impl CancelToken {
    /// A token that has not been cancelled.
    pub fn new() -> Self {
        CancelToken { cancelled: Arc::new(AtomicBool::new(false)) }
    }

    /// Marks the token as cancelled for every holder.
    pub fn cancel(&self) {
        self.cancelled.store(true, Ordering::SeqCst);
    }

    /// Whether any holder has cancelled the token. Other threads may set the
    /// flag at any time, so nothing is promised of the value read.
    pub fn is_cancelled(&self) -> bool {
        self.cancelled.load(Ordering::SeqCst)
    }
}

impl Default for CancelToken {
    fn default() -> Self {
        CancelToken::new()
    }
}

/// Receives progress of long tasks.
pub trait ProgressReporter {
    /// A task with `total` steps starts.
    fn start(&self, total: usize, message: &str);

    /// The task reached step `current`.
    fn tick(&self, current: usize, message: &str);

    /// The task finished.
    fn finish(&self, message: &str);

    /// The task was cancelled.
    fn cancelled(&self, message: &str);
}

/// A reporter that shows nothing.
#[derive(Debug, Clone, Copy)]
pub struct SilentProgress;

impl ProgressReporter for SilentProgress {
    fn start(&self, _total: usize, _message: &str) {
    }

    fn tick(&self, _current: usize, _message: &str) {
    }

    fn finish(&self, _message: &str) {
    }

    fn cancelled(&self, _message: &str) {
    }
}

/// The stages of a diagnosis.
#[derive(Debug, Clone, Copy, PartialEq, Eq, Structural)]
pub enum DiagnosticStage {
    ReadingInput,
    Compiling,
    ParsingErrors,
    RunningTests,
    LlmCalling,
    GeneratingReport,
}

pub open spec fn stage_text(stage: DiagnosticStage) -> Seq<char> {
    match stage {
        DiagnosticStage::ReadingInput => "读取输入"@,
        DiagnosticStage::Compiling => "编译代码"@,
        DiagnosticStage::ParsingErrors => "解析错误"@,
        DiagnosticStage::RunningTests => "运行测试"@,
        DiagnosticStage::LlmCalling => "调用 LLM"@,
        DiagnosticStage::GeneratingReport => "生成报告"@,
    }
}

impl DiagnosticStage {
    /// Description of the stage.
    pub fn as_str(&self) -> (r: &'static str)
        ensures
            r@ == stage_text(*self),
    {
        match self {
            DiagnosticStage::ReadingInput => "读取输入",
            DiagnosticStage::Compiling => "编译代码",
            DiagnosticStage::ParsingErrors => "解析错误",
            DiagnosticStage::RunningTests => "运行测试",
            DiagnosticStage::LlmCalling => "调用 LLM",
            DiagnosticStage::GeneratingReport => "生成报告",
        }
    }
}

/// What the user chose at a step prompt.
#[derive(Debug, Clone, Copy, PartialEq, Eq, Structural)]
pub enum StepChoice {
    Continue,
    RunRemaining,
    Cancel,
    Help,
    Invalid,
}

/// The choice an answer names, after trimming and ignoring ASCII case:
/// empty, `c` or `continue` continue; `a` or `all` run the rest of the round;
/// `q`, `quit` or `cancel` cancel; `h`, `help` or `?` ask for help.
pub open spec fn step_choice_spec(input: Seq<char>) -> StepChoice {
    let v = lower_seq(trim_spec(input));
    if v == Seq::<char>::empty() || v == "c"@ || v == "continue"@ {
        StepChoice::Continue
    } else if v == "a"@ || v == "all"@ {
        StepChoice::RunRemaining
    } else if v == "q"@ || v == "quit"@ || v == "cancel"@ {
        StepChoice::Cancel
    } else if v == "h"@ || v == "help"@ || v == "?"@ {
        StepChoice::Help
    } else {
        StepChoice::Invalid
    }
}

pub fn parse_step_choice(input: &str) -> (r: StepChoice)
    ensures
        r == step_choice_spec(input@),
{
    let raw = chars_of(input);
    let t = trim(&raw);
    let v = to_ascii_lower(&t);
    if v.len() == 0 || eq_str(&v, "c") || eq_str(&v, "continue") {
        assert(v.len() == 0 ==> v@ =~= Seq::<char>::empty());
        StepChoice::Continue
    } else if eq_str(&v, "a") || eq_str(&v, "all") {
        StepChoice::RunRemaining
    } else if eq_str(&v, "q") || eq_str(&v, "quit") || eq_str(&v, "cancel") {
        StepChoice::Cancel
    } else if eq_str(&v, "h") || eq_str(&v, "help") || eq_str(&v, "?") {
        StepChoice::Help
    } else {
        StepChoice::Invalid
    }
}

/// The state of guided step-by-step execution.
#[derive(Debug)]
pub struct StepController {
    requested: bool,
    interactive: bool,
    run_remaining: bool,
    current: usize,
    total: usize,
}

/// The contents of a [`StepController`].
pub struct StepView {
    pub requested: bool,
    pub interactive: bool,
    pub run_remaining: bool,
    pub current: usize,
    pub total: usize,
}

impl View for StepController {
    type V = StepView;

    closed spec fn view(&self) -> StepView {
        StepView {
            requested: self.requested,
            interactive: self.interactive,
            run_remaining: self.run_remaining,
            current: self.current,
            total: self.total,
        }
    }
}

/// The state after starting a round of `total` steps.
pub open spec fn begin_round_spec(s: StepView, total: usize) -> StepView {
    StepView { run_remaining: false, current: 0, total, ..s }
}

/// The state after advancing one step, never past the round's total.
pub open spec fn next_position_spec(s: StepView) -> StepView {
    StepView {
        current: if s.current < s.total {
            (s.current + 1) as usize
        } else {
            s.total
        },
        ..s
    }
}

/// The state after choosing to run the rest of the round.
pub open spec fn run_remaining_spec(s: StepView) -> StepView {
    StepView { run_remaining: true, ..s }
}

/// Whether the user is asked before the next step.
pub open spec fn prompts(s: StepView) -> bool {
    s.requested && s.interactive && !s.run_remaining
}

impl StepController {
    /// A controller for a run where step mode was (or was not) requested, in
    /// an interactive terminal (or not).
    pub fn new(requested: bool, interactive: bool) -> (r: Self)
        ensures
            r@ == (StepView { requested, interactive, run_remaining: false, current: 0, total: 0 }),
    {
        StepController { requested, interactive, run_remaining: false, current: 0, total: 0 }
    }

    /// Step mode is in force: requested, and a terminal is there to ask.
    pub fn is_active(&self) -> (r: bool)
        ensures
            r == (self@.requested && self@.interactive),
    {
        self.requested && self.interactive
    }

    /// Step mode was requested but there is no terminal to ask.
    pub fn requested_without_terminal(&self) -> (r: bool)
        ensures
            r == (self@.requested && !self@.interactive),
    {
        self.requested && !self.interactive
    }

    /// Starts a round of `total` steps; prompting resumes.
    pub fn begin_round(&mut self, total: usize)
        ensures
            final(self)@ == begin_round_spec(old(self)@, total),
    {
        self.run_remaining = false;
        self.current = 0;
        self.total = total;
    }

    /// Advances to the next step, never past the round's total; returns
    /// the step number and the total.
    pub fn next_position(&mut self) -> (r: (usize, usize))
        ensures
            final(self)@ == next_position_spec(old(self)@),
            r == (final(self)@.current, final(self)@.total),
    {
        let next = if self.current < self.total {
            self.current + 1
        } else {
            self.total
        };
        self.current = next;
        (self.current, self.total)
    }

    /// Whether the user is asked before the next step.
    pub fn should_prompt(&self) -> (r: bool)
        ensures
            r == prompts(self@),
    {
        self.is_active() && !self.run_remaining
    }

    /// Runs the rest of the round without asking.
    pub fn run_remaining(&mut self)
        ensures
            final(self)@ == run_remaining_spec(old(self)@),
    {
        self.run_remaining = true;
    }
}

/// What the compile step does, said before it starts.
pub fn compile_stage_detail(single_file: bool) -> (r: &'static str)
    ensures
        r@ == (if single_file {
            "使用 rustc 检查单文件，并在成功时生成临时可执行程序。"@
        } else {
            "使用 cargo check 检查整个多文件项目。"@
        }),
{
    if single_file {
        "使用 rustc 检查单文件，并在成功时生成临时可执行程序。"
    } else {
        "使用 cargo check 检查整个多文件项目。"
    }
}

pub open spec fn analysis_detail_spec(tests: nat, run_tests: bool, mode: EffortMode, model: bool) -> Seq<char> {
    if tests == 0 {
        "解析编译器证据并映射知识点；当前没有外部测试用例。"@
    } else if !run_tests {
        "思考模式 "@ + mode_name_spec(mode) + " 将跳过 "@ + decimal(tests) + " 个外部测试，只分析编译器证据。"@
    } else if model {
        "解析编译器证据并运行 "@ + decimal(tests) + " 个测试；失败用例会调用模型映射知识点并消耗 Token。"@
    } else {
        "解析编译器证据；编译成功后运行 "@ + decimal(tests) + " 个测试，并分析失败用例。"@
    }
}

/// What the analysis step does, said before it starts: with `tests`
/// external tests, whether the effort mode `mode` runs them, and whether a
/// model is configured.
pub fn analysis_stage_detail(tests: usize, run_tests: bool, mode: EffortMode, model: bool) -> (r: String)
    ensures
        r@ == analysis_detail_spec(tests as nat, run_tests, mode, model),
{
    if tests == 0 {
        string_from("解析编译器证据并映射知识点；当前没有外部测试用例。")
    } else if !run_tests {
        let mut s = string_from("思考模式 ");
        push_str(&mut s, mode.as_str());
        push_str(&mut s, " 将跳过 ");
        push_decimal(&mut s, tests as u64);
        push_str(&mut s, " 个外部测试，只分析编译器证据。");
        s
    } else if model {
        let mut s = string_from("解析编译器证据并运行 ");
        push_decimal(&mut s, tests as u64);
        push_str(&mut s, " 个测试；失败用例会调用模型映射知识点并消耗 Token。");
        s
    } else {
        let mut s = string_from("解析编译器证据；编译成功后运行 ");
        push_decimal(&mut s, tests as u64);
        push_str(&mut s, " 个测试，并分析失败用例。");
        s
    }
}

pub open spec fn report_detail_spec(issues: nat, level: HintLevel, model: bool) -> Seq<char> {
    if (level == HintLevel::Concept || level == HintLevel::Direction || level == HintLevel::Solution) && model {
        "整理 "@ + decimal(issues) + " 个问题，并调用模型增强 Level "@ + decimal(level_number(level) as nat)
            + " 提示。"@
    } else {
        "按当前提示等级整理 "@ + decimal(issues) + " 个问题及相应提示。"@
    }
}

/// What the report step does, said before it starts: `issues` problems at
/// hint level `level`, with the model asked at levels 3 to 5 when configured.
pub fn report_stage_detail(issues: usize, level: HintLevel, model: bool) -> (r: String)
    ensures
        r@ == report_detail_spec(issues as nat, level, model),
{
    let model_level = match level {
        HintLevel::Concept | HintLevel::Direction | HintLevel::Solution => true,
        _ => false,
    };
    if model_level && model {
        let mut s = string_from("整理 ");
        push_decimal(&mut s, issues as u64);
        push_str(&mut s, " 个问题，并调用模型增强 Level ");
        push_decimal(&mut s, hint_level_as_number(level) as u64);
        push_str(&mut s, " 提示。");
        s
    } else {
        let mut s = string_from("按当前提示等级整理 ");
        push_decimal(&mut s, issues as u64);
        push_str(&mut s, " 个问题及相应提示。");
        s
    }
}

/// Advancing within a round never moves backwards nor past the round's total.
pub proof fn law_steps_stay_within_round(s: StepView)
    requires
        s.current <= s.total,
    ensures
        next_position_spec(s).current <= next_position_spec(s).total,
        next_position_spec(s).current >= s.current,
        next_position_spec(s).total == s.total,
{
}

/// The state after `k` calls of `next_position` from `s`.
pub open spec fn position_after(s: StepView, k: nat) -> StepView
    decreases k,
{
    if k == 0 {
        s
    } else {
        next_position_spec(position_after(s, (k - 1) as nat))
    }
}

/// In a round of `n` steps, the `k`-th call of `next_position` gives the
/// position `min(k, n)` of `n`: positions count up by one and stop at the
/// round's total, so the step never exceeds the total. `begin_round` moves the
/// controller by `begin_round_spec`, each `next_position` by
/// `next_position_spec` and returns the new `(current, total)`.
pub proof fn law_step_positions(s: StepView, n: usize, k: nat)
    ensures
        position_after(begin_round_spec(s, n), k).current == if k < n {
            k
        } else {
            n as nat
        },
        position_after(begin_round_spec(s, n), k).total == n,
        position_after(begin_round_spec(s, n), k).current <= position_after(
            begin_round_spec(s, n),
            k,
        ).total,
        k >= 1 ==> ({
            let after = next_position_spec(position_after(begin_round_spec(s, n), (k - 1) as nat));
            &&& after.current == (if k < n {
                k
            } else {
                n as nat
            })
            &&& after.total == n
        }),
    decreases k,
{
    if k > 0 {
        law_step_positions(s, n, (k - 1) as nat);
    }
}

/// A new round asks again: whatever was chosen in the last round (even to
/// run the rest without asking), after a round begins the user is asked
/// exactly when step mode is in force.
pub proof fn law_new_round_asks_again(s: StepView, total: usize)
    ensures
        prompts(begin_round_spec(s, total)) == (s.requested && s.interactive),
        prompts(begin_round_spec(run_remaining_spec(s), total)) == (s.requested && s.interactive),
{
}

} // verus!
