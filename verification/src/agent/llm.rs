//! Chat messages for OpenAI-compatible services, model responses, and the
//! prompts that ask a model to enrich hints.
use crate::agent::context::{relevant_source_with_scope, relevant_spec};
use crate::analysis::classifier::ClassifiedView;
use crate::analysis::error_parser::{opt_loc, opt_str, DiagnosticView, RustcDiagnostic};
use crate::analysis::hint::{
    category_text_spec, error_category_text, knowledge_point_text, location_text_spec,
    point_text_spec, points_joined, push_location, push_points_joined,
};
use crate::config::effort::{for_mode_spec, EffortMode, EffortPolicy, ModelTaskKind, PolicyView};
use crate::config::model::{is_gpt_oss_spec, resolved_protocol_spec, ModelConfig, ReasoningProtocol};
use crate::error::PadaError;
use crate::models::{Assignment, Diagnostic, ErrorCategory, HintLevel, KnowledgePoint, TestResult};
use crate::text::{chars_of, eq_str, join_spec, push_chars, push_str, string_from, trim, trim_spec, trimmed};
use vstd::prelude::*;

verus! {

/// One chat message; `role` is `system`, `user` or `assistant`.
#[derive(Debug, Clone, PartialEq, Eq)]
pub struct ChatMessage {
    pub role: String,
    pub content: String,
}

/// The contents of a [`ChatMessage`].
pub struct MessageView {
    pub role: Seq<char>,
    pub content: Seq<char>,
}

impl View for ChatMessage {
    type V = MessageView;

    open spec fn view(&self) -> MessageView {
        MessageView { role: self.role@, content: self.content@ }
    }
}

pub open spec fn message_views(v: Seq<ChatMessage>) -> Seq<MessageView> {
    Seq::new(v.len(), |i: int| v[i]@)
}

impl ChatMessage {
    /// A system message (sets the agent's behaviour).
    pub fn system(content: String) -> (r: Self)
        ensures
            r@ == (MessageView { role: "system"@, content: content@ }),
    {
        ChatMessage { role: string_from("system"), content }
    }

    /// A user message (input, assignment, code).
    pub fn user(content: String) -> (r: Self)
        ensures
            r@ == (MessageView { role: "user"@, content: content@ }),
    {
        ChatMessage { role: string_from("user"), content }
    }

    /// An assistant message (an earlier reply).
    pub fn assistant(content: String) -> (r: Self)
        ensures
            r@ == (MessageView { role: "assistant"@, content: content@ }),
    {
        ChatMessage { role: string_from("assistant"), content }
    }
}

// ------------------------------------------------------------------
// Responses
// ------------------------------------------------------------------

/// Details a service reports about a response.
#[derive(Debug, Clone, PartialEq, Eq)]
pub struct ResponseDetails {
    pub reasoning_tokens: Option<usize>,
    pub finish_reason: Option<String>,
}

impl Default for ResponseDetails {
    fn default() -> (r: Self)
        ensures
            r.reasoning_tokens is None,
            r.finish_reason is None,
    {
        ResponseDetails { reasoning_tokens: None, finish_reason: None }
    }
}

/// Timings of one model call, in milliseconds.
#[derive(Debug, Clone, PartialEq, Eq)]
pub struct CallTimings {
    pub prompt_build_ms: u64,
    pub api_ttft_ms: Option<u64>,
    pub total_ms: u64,
    pub api_first_event_ms: Option<u64>,
    pub api_first_reasoning_ms: Option<u64>,
    pub json_fallback: bool,
}

impl Default for CallTimings {
    fn default() -> (r: Self)
        ensures
            r == (CallTimings {
                prompt_build_ms: 0,
                api_ttft_ms: None,
                total_ms: 0,
                api_first_event_ms: None,
                api_first_reasoning_ms: None,
                json_fallback: false,
            }),
    {
        CallTimings {
            prompt_build_ms: 0,
            api_ttft_ms: None,
            total_ms: 0,
            api_first_event_ms: None,
            api_first_reasoning_ms: None,
            json_fallback: false,
        }
    }
}

/// A model's response; token counts come from the service's usage report.
#[derive(Debug, Clone, PartialEq, Eq)]
pub struct LlmResponse {
    pub details: ResponseDetails,
    pub timings: CallTimings,
    /// The reply.
    pub content: String,
    /// Prompt tokens.
    pub input_tokens: usize,
    /// Completion tokens.
    pub output_tokens: usize,
    /// The model that answered.
    pub model: String,
}

/// Why a response is not complete, if it is not: output cut at the length
/// limit, another finish reason than `stop`, or an empty reply.
pub open spec fn incomplete_reason(finish: Option<Seq<char>>, content: Seq<char>) -> Option<Seq<char>> {
    match finish {
        Some(r) => if r == "length"@ {
            Some("模型输出达到长度上限，结果不完整；请提高 output_limits 后重试"@)
        } else if r != "stop"@ {
            Some("模型未正常完成输出："@ + r)
        } else if trim_spec(content).len() == 0 {
            Some("模型没有返回有效正文"@)
        } else {
            None
        },
        None => if trim_spec(content).len() == 0 {
            Some("模型没有返回有效正文"@)
        } else {
            None
        },
    }
}

impl LlmResponse {
    /// Checks that the response is complete; truncated output must not be
    /// cached or saved as tests.
    pub fn ensure_complete(&self) -> (r: Result<(), PadaError>)
        ensures
            match incomplete_reason(opt_str(self.details.finish_reason), self.content@) {
                None => r is Ok,
                Some(m) => r matches Err(PadaError::Llm(e)) && e@ == m,
            },
    {
        match &self.details.finish_reason {
            Some(reason) => {
                let rv = chars_of(reason.as_str());
                if eq_str(&rv, "length") {
                    return Err(PadaError::Llm(string_from("模型输出达到长度上限，结果不完整；请提高 output_limits 后重试")));
                }
                if !eq_str(&rv, "stop") {
                    let mut m = string_from("模型未正常完成输出：");
                    push_str(&mut m, reason.as_str());
                    return Err(PadaError::Llm(m));
                }
            },
            None => {},
        }
        let t = trimmed(self.content.as_str());
        if t.len() == 0 {
            return Err(PadaError::Llm(string_from("模型没有返回有效正文")));
        }
        Ok(())
    }
}

// ------------------------------------------------------------------
// Prompts for hint enrichment
// ------------------------------------------------------------------

pub open spec fn instruction_spec(level: HintLevel) -> Seq<char> {
    match level {
        HintLevel::Concept => "当前是 Level 3（相关知识点）。严格使用 Markdown 的“### 知识点说明”“### 通用示例”“### 自检问题”三节。解释诊断中已有知识点，并给一个与本题变量、数据和业务场景不同的最小 Rust 示例。示例只演示概念，不分析用户代码的具体改法，不给本题答案。"@,
        HintLevel::Direction => "当前是 Level 4（修改方向）。严格使用 Markdown 的“### 修改方向”“### 经典错误模式”“### 思考提示”三节。说明应检查的方向，并用一个与本题不同的经典错误写法及通用改进写法作对照。不得生成用户提交的完整修正版，不得直接给出本题答案。"@,
        HintLevel::Solution => "当前是 Level 5（参考方案）。严格使用 Markdown 的“### 问题原因”“### 修改步骤”“### 关键代码片段”“### 自检”四节。给出可操作的参考方案，但只展示与错误有关的最小代码片段，避免重写无关代码。"@,
        _ => "只解释当前诊断信息，不提供完整答案。"@,
    }
}

/// The instruction that tells a model what a hint level may reveal.
pub fn hint_level_instruction(level: HintLevel) -> (r: &'static str)
    ensures
        r@ == instruction_spec(level),
{
    match level {
        HintLevel::Concept => "当前是 Level 3（相关知识点）。严格使用 Markdown 的“### 知识点说明”“### 通用示例”“### 自检问题”三节。解释诊断中已有知识点，并给一个与本题变量、数据和业务场景不同的最小 Rust 示例。示例只演示概念，不分析用户代码的具体改法，不给本题答案。",
        HintLevel::Direction => "当前是 Level 4（修改方向）。严格使用 Markdown 的“### 修改方向”“### 经典错误模式”“### 思考提示”三节。说明应检查的方向，并用一个与本题不同的经典错误写法及通用改进写法作对照。不得生成用户提交的完整修正版，不得直接给出本题答案。",
        HintLevel::Solution => "当前是 Level 5（参考方案）。严格使用 Markdown 的“### 问题原因”“### 修改步骤”“### 关键代码片段”“### 自检”四节。给出可操作的参考方案，但只展示与错误有关的最小代码片段，避免重写无关代码。",
        _ => "只解释当前诊断信息，不提供完整答案。",
    }
}

/// The system prompt of a layered-hint request.
pub open spec fn tutor_system_spec(level: HintLevel, profile: Seq<char>) -> Seq<char> {
    "你是 Rust 编程导师，必须遵守分层教学，不得越级直接给出作业答案。不要输出思维链或 <think> 标签。"@
        + instruction_spec(level) + "\n"@ + profile
}

fn tutor_system(level: HintLevel, profile: &str) -> (r: ChatMessage)
    ensures
        r@ == (MessageView { role: "system"@, content: tutor_system_spec(level, profile@) }),
{
    let mut s = String::new();
    push_str(&mut s, "你是 Rust 编程导师，必须遵守分层教学，不得越级直接给出作业答案。不要输出思维链或 <think> 标签。");
    push_str(&mut s, hint_level_instruction(level));
    push_str(&mut s, "\n");
    push_str(&mut s, profile);
    assert(s@ =~= tutor_system_spec(level, profile@));
    ChatMessage::system(s)
}

/// The knowledge points, or `待分析` when there is none.
pub open spec fn points_or_pending(points: Seq<KnowledgePoint>) -> Seq<char> {
    if points.len() == 0 {
        "待分析"@
    } else {
        points_joined(points)
    }
}

fn push_points_or_pending(out: &mut String, points: &Vec<KnowledgePoint>)
    ensures
        final(out)@ == old(out)@ + points_or_pending(points@),
{
    if points.len() == 0 {
        push_str(out, "待分析");
    } else {
        push_points_joined(out, points);
    }
}

/// The user prompt of a compile-error hint request.
pub open spec fn compile_user_spec(
    title: Seq<char>,
    description: Seq<char>,
    source: Seq<char>,
    d: DiagnosticView,
    c: ClassifiedView,
    hint: Seq<char>,
) -> Seq<char> {
    "题目："@ + title + "\n题目描述：\n"@ + description + "\n\n提交内容：\n```rust\n"@ + source
        + "\n```\n\n错误类别："@ + category_text_spec(c.category) + "\n错误位置："@ + (match d.location {
        Some(l) => location_text_spec(l),
        None => "未知"@,
    }) + "\n错误码："@ + (match d.code {
        Some(code) => code,
        None => "无"@,
    }) + "\n错误消息："@ + d.message + "\n相关知识点："@ + points_or_pending(c.knowledge_points)
        + "\nRust 基础提示："@ + hint
}

/// The two messages of a compile-error hint request, with the source window
/// chosen by the policy's source scope.
pub open spec fn compile_messages_spec(
    a: Assignment,
    source: Seq<char>,
    d: DiagnosticView,
    c: ClassifiedView,
    level: HintLevel,
    hint: Seq<char>,
    profile: Seq<char>,
    policy: PolicyView,
) -> Seq<MessageView> {
    seq![
        MessageView { role: "system"@, content: tutor_system_spec(level, profile) },
        MessageView {
            role: "user"@,
            content: compile_user_spec(
                a.title@,
                a.description@,
                relevant_spec(source, d.location, policy.source),
                d,
                c,
                hint,
            ),
        },
    ]
}

/// Builds a model request that enriches a compile-error hint, with the medium policy.
pub fn compile_hint_messages(
    assignment: &Assignment,
    source_context: &str,
    diag: &RustcDiagnostic,
    classified: &Diagnostic,
    level: HintLevel,
    deterministic_hint: &str,
    profile_summary: &str,
) -> (r: Vec<ChatMessage>)
    ensures
        message_views(r@) == compile_messages_spec(
            *assignment,
            source_context@,
            diag@,
            classified@,
            level,
            deterministic_hint@,
            profile_summary@,
            for_mode_spec(EffortMode::Medium),
        ),
{
    compile_hint_messages_with_policy(
        assignment,
        source_context,
        diag,
        classified,
        level,
        deterministic_hint,
        profile_summary,
        EffortPolicy::for_mode(EffortMode::Medium),
    )
}

/// Builds a model request that enriches a compile-error hint.
pub fn compile_hint_messages_with_policy(
    assignment: &Assignment,
    source_context: &str,
    diag: &RustcDiagnostic,
    classified: &Diagnostic,
    level: HintLevel,
    deterministic_hint: &str,
    profile_summary: &str,
    policy: EffortPolicy,
) -> (r: Vec<ChatMessage>)
    ensures
        message_views(r@) == compile_messages_spec(
            *assignment,
            source_context@,
            diag@,
            classified@,
            level,
            deterministic_hint@,
            profile_summary@,
            policy@,
        ),
{
    let source = relevant_source_with_scope(source_context, diag.location.as_ref(), policy.source);
    let system = tutor_system(level, profile_summary);
    let mut u = String::new();
    push_str(&mut u, "题目：");
    push_str(&mut u, assignment.title.as_str());
    push_str(&mut u, "\n题目描述：\n");
    push_str(&mut u, assignment.description.as_str());
    push_str(&mut u, "\n\n提交内容：\n```rust\n");
    push_str(&mut u, source.as_str());
    push_str(&mut u, "\n```\n\n错误类别：");
    push_str(&mut u, error_category_text(classified.category));
    push_str(&mut u, "\n错误位置：");
    match &diag.location {
        Some(l) => push_location(&mut u, l),
        None => push_str(&mut u, "未知"),
    }
    push_str(&mut u, "\n错误码：");
    match &diag.code {
        Some(code) => push_str(&mut u, code.as_str()),
        None => push_str(&mut u, "无"),
    }
    push_str(&mut u, "\n错误消息：");
    push_str(&mut u, diag.message.as_str());
    push_str(&mut u, "\n相关知识点：");
    push_points_or_pending(&mut u, &classified.knowledge_points);
    push_str(&mut u, "\nRust 基础提示：");
    push_str(&mut u, deterministic_hint);
    assert(u@ =~= compile_user_spec(
        assignment.title@,
        assignment.description@,
        relevant_spec(source_context@, diag@.location, policy@.source),
        diag@,
        classified@,
        deterministic_hint@,
    ));
    let user = ChatMessage::user(u);
    let mut v: Vec<ChatMessage> = Vec::new();
    v.push(system);
    v.push(user);
    assert(message_views(v@) =~= compile_messages_spec(
        *assignment,
        source_context@,
        diag@,
        classified@,
        level,
        deterministic_hint@,
        profile_summary@,
        policy@,
    ));
    v
}

/// The user prompt of a failed-test hint request.
pub open spec fn test_user_spec(
    title: Seq<char>,
    description: Seq<char>,
    source: Seq<char>,
    r: TestResult,
    c: ClassifiedView,
    hint: Seq<char>,
) -> Seq<char> {
    "题目："@ + title + "\n题目描述：\n"@ + description + "\n\n提交内容：\n```rust\n"@ + source
        + "\n```\n\n失败用例："@ + r.name@ + "\n期望输出："@ + trim_spec(r.expected_output@)
        + "\n实际输出："@ + trim_spec(r.actual_output@) + "\n运行错误："@ + (match r.runtime_error {
        Some(e) => e@,
        None => "无"@,
    }) + "\n相关知识点："@ + points_or_pending(c.knowledge_points) + "\nRust 基础提示："@ + hint
}

pub open spec fn test_messages_spec(
    a: Assignment,
    source: Seq<char>,
    r: TestResult,
    c: ClassifiedView,
    level: HintLevel,
    hint: Seq<char>,
    profile: Seq<char>,
) -> Seq<MessageView> {
    seq![
        MessageView { role: "system"@, content: tutor_system_spec(level, profile) },
        MessageView {
            role: "user"@,
            content: test_user_spec(a.title@, a.description@, source, r, c, hint),
        },
    ]
}

/// Builds a model request that enriches a failed-test hint.
pub fn test_hint_messages(
    assignment: &Assignment,
    source_context: &str,
    result: &TestResult,
    classified: &Diagnostic,
    level: HintLevel,
    deterministic_hint: &str,
    profile_summary: &str,
) -> (r: Vec<ChatMessage>)
    ensures
        message_views(r@) == test_messages_spec(
            *assignment,
            source_context@,
            *result,
            classified@,
            level,
            deterministic_hint@,
            profile_summary@,
        ),
{
    let system = tutor_system(level, profile_summary);
    let mut u = String::new();
    push_str(&mut u, "题目：");
    push_str(&mut u, assignment.title.as_str());
    push_str(&mut u, "\n题目描述：\n");
    push_str(&mut u, assignment.description.as_str());
    push_str(&mut u, "\n\n提交内容：\n```rust\n");
    push_str(&mut u, source_context);
    push_str(&mut u, "\n```\n\n失败用例：");
    push_str(&mut u, result.name.as_str());
    push_str(&mut u, "\n期望输出：");
    let e = trimmed(result.expected_output.as_str());
    push_chars(&mut u, &e);
    push_str(&mut u, "\n实际输出：");
    let a = trimmed(result.actual_output.as_str());
    push_chars(&mut u, &a);
    push_str(&mut u, "\n运行错误：");
    match &result.runtime_error {
        Some(err) => push_str(&mut u, err.as_str()),
        None => push_str(&mut u, "无"),
    }
    push_str(&mut u, "\n相关知识点：");
    push_points_or_pending(&mut u, &classified.knowledge_points);
    push_str(&mut u, "\nRust 基础提示：");
    push_str(&mut u, deterministic_hint);
    assert(u@ =~= test_user_spec(
        assignment.title@,
        assignment.description@,
        source_context@,
        *result,
        classified@,
        deterministic_hint@,
    ));
    let user = ChatMessage::user(u);
    let mut v: Vec<ChatMessage> = Vec::new();
    v.push(system);
    v.push(user);
    assert(message_views(v@) =~= test_messages_spec(
        *assignment,
        source_context@,
        *result,
        classified@,
        level,
        deterministic_hint@,
        profile_summary@,
    ));
    v
}

/// A level-5 compile-error request (kept for older callers).
pub fn compile_solution_messages(
    assignment: &Assignment,
    source_context: &str,
    diag: &RustcDiagnostic,
    classified: &Diagnostic,
    profile_summary: &str,
) -> (r: Vec<ChatMessage>)
    ensures
        message_views(r@) == compile_messages_spec(
            *assignment,
            source_context@,
            diag@,
            classified@,
            HintLevel::Solution,
            Seq::<char>::empty(),
            profile_summary@,
            for_mode_spec(EffortMode::Medium),
        ),
{
    let r = compile_hint_messages(
        assignment,
        source_context,
        diag,
        classified,
        HintLevel::Solution,
        "",
        profile_summary,
    );
    assert(""@ =~= Seq::<char>::empty()) by {
        reveal_strlit("");
    }
    r
}

/// A level-5 failed-test request (kept for older callers): the test counts
/// as a logic error with no known point.
pub fn test_solution_messages(
    assignment: &Assignment,
    source_context: &str,
    result: &TestResult,
    profile_summary: &str,
) -> (r: Vec<ChatMessage>)
    ensures
        message_views(r@) == test_messages_spec(
            *assignment,
            source_context@,
            *result,
            ClassifiedView {
                category: ErrorCategory::LogicError,
                knowledge_points: seq![],
                confidence_percent: 0,
            },
            HintLevel::Solution,
            Seq::<char>::empty(),
            profile_summary@,
        ),
{
    let classified = Diagnostic {
        category: ErrorCategory::LogicError,
        knowledge_points: Vec::new(),
        confidence_percent: 0,
    };
    assert(classified@.knowledge_points =~= seq![]);
    let r = test_hint_messages(
        assignment,
        source_context,
        result,
        &classified,
        HintLevel::Solution,
        "",
        profile_summary,
    );
    assert(""@ =~= Seq::<char>::empty()) by {
        reveal_strlit("");
    }
    r
}

/// The knowledge points in the byte order of their descriptions.
pub open spec fn points_by_text() -> Seq<KnowledgePoint> {
    seq![
        KnowledgePoint::Option,
        KnowledgePoint::Result,
        KnowledgePoint::Trait,
        KnowledgePoint::Borrowing,
        KnowledgePoint::NameResolution,
        KnowledgePoint::Ownership,
        KnowledgePoint::PatternMatching,
        KnowledgePoint::Generic,
        KnowledgePoint::Lifetime,
        KnowledgePoint::AlgorithmLogic,
        KnowledgePoint::TypeSystem,
        KnowledgePoint::Syntax,
        KnowledgePoint::Iterator,
        KnowledgePoint::ErrorHandling,
        KnowledgePoint::Collection,
    ]
}

/// The distinct points of `points`, ordered by their descriptions.
pub open spec fn sorted_distinct(points: Seq<KnowledgePoint>) -> Seq<KnowledgePoint> {
    points_by_text().filter(|p: KnowledgePoint| points.contains(p))
}

fn points_by_text_exec() -> (r: Vec<KnowledgePoint>)
    ensures
        r@ == points_by_text(),
{
    let r = vec![
        KnowledgePoint::Option,
        KnowledgePoint::Result,
        KnowledgePoint::Trait,
        KnowledgePoint::Borrowing,
        KnowledgePoint::NameResolution,
        KnowledgePoint::Ownership,
        KnowledgePoint::PatternMatching,
        KnowledgePoint::Generic,
        KnowledgePoint::Lifetime,
        KnowledgePoint::AlgorithmLogic,
        KnowledgePoint::TypeSystem,
        KnowledgePoint::Syntax,
        KnowledgePoint::Iterator,
        KnowledgePoint::ErrorHandling,
        KnowledgePoint::Collection,
    ];
    assert(r@ =~= points_by_text());
    r
}

fn contains_point(v: &Vec<KnowledgePoint>, p: KnowledgePoint) -> (r: bool)
    ensures
        r == v@.contains(p),
{
    let mut i: usize = 0;
    while i < v.len()
        invariant
            i <= v@.len(),
            forall|j: int| 0 <= j < i ==> v@[j] != p,
        decreases v.len() - i,
    {
        if v[i] == p {
            return true;
        }
        i = i + 1;
    }
    false
}

/// The distinct points of `points`, ordered by their descriptions.
pub fn sort_points_by_text(points: &Vec<KnowledgePoint>) -> (r: Vec<KnowledgePoint>)
    ensures
        r@ == sorted_distinct(points@),
{
    let order = points_by_text_exec();
    let mut out: Vec<KnowledgePoint> = Vec::new();
    let mut i: usize = 0;
    let ghost pred = |p: KnowledgePoint| points@.contains(p);
    assert(order@.take(0).filter(pred) =~= seq![]);
    while i < order.len()
        invariant
            i <= order@.len(),
            order@ == points_by_text(),
            pred == (|p: KnowledgePoint| points@.contains(p)),
            out@ == order@.take(i as int).filter(pred),
        decreases order.len() - i,
    {
        reveal_with_fuel(Seq::<_>::filter, 1);
        assert(order@.take(i + 1).drop_last() =~= order@.take(i as int));
        if contains_point(points, order[i]) {
            out.push(order[i]);
        }
        i = i + 1;
    }
    assert(order@.take(order@.len() as int) =~= order@);
    out
}

pub open spec fn concept_user_spec(points: Seq<KnowledgePoint>) -> Seq<char> {
    "解释以下已由诊断确定的知识点："@ + points_joined(sorted_distinct(points))
        + "。只给通用概念、最小示例和自检问题，不推断具体提交的修改方案。"@
}

pub open spec fn concept_system_spec(profile: Seq<char>) -> Seq<char> {
    "你是 Rust 编程导师。不要输出思维链或 <think> 标签。"@ + instruction_spec(HintLevel::Concept)
        + "\n"@ + profile
}

/// A level-3 request that teaches only the points the diagnosis found;
/// equal point sets share one general example.
pub fn concept_hint_messages(classified: &Diagnostic, profile_summary: &str) -> (r: Vec<ChatMessage>)
    ensures
        message_views(r@) == seq![
            MessageView { role: "system"@, content: concept_system_spec(profile_summary@) },
            MessageView { role: "user"@, content: concept_user_spec(classified@.knowledge_points) },
        ],
{
    let mut s = String::new();
    push_str(&mut s, "你是 Rust 编程导师。不要输出思维链或 <think> 标签。");
    push_str(&mut s, hint_level_instruction(HintLevel::Concept));
    push_str(&mut s, "\n");
    push_str(&mut s, profile_summary);
    assert(s@ =~= concept_system_spec(profile_summary@));
    let sorted = sort_points_by_text(&classified.knowledge_points);
    let mut u = String::new();
    push_str(&mut u, "解释以下已由诊断确定的知识点：");
    push_points_joined(&mut u, &sorted);
    push_str(&mut u, "。只给通用概念、最小示例和自检问题，不推断具体提交的修改方案。");
    assert(u@ =~= concept_user_spec(classified@.knowledge_points));
    let mut v: Vec<ChatMessage> = Vec::new();
    v.push(ChatMessage::system(s));
    v.push(ChatMessage::user(u));
    assert(message_views(v@) =~= seq![
        MessageView { role: "system"@, content: concept_system_spec(profile_summary@) },
        MessageView { role: "user"@, content: concept_user_spec(classified@.knowledge_points) },
    ]);
    v
}

// ------------------------------------------------------------------
// Reasoning fields of a chat request
// ------------------------------------------------------------------

/// The reasoning fields a chat request carries, by protocol.
pub enum ReasoningRequest {
    /// No reasoning field.
    Plain,
    /// DeepSeek: `thinking.type` enabled or disabled, and an effort when enabled.
    Deepseek { enabled: bool, effort: Option<String> },
    /// Ollama: `reasoning_effort`.
    Ollama(String),
    /// `enable_thinking`.
    EnableThinking(bool),
    /// Other compatible services: `reasoning: true` and `reasoning_effort`.
    Compatible(String),
}

pub enum RequestView {
    Plain,
    Deepseek(bool, Option<Seq<char>>),
    Ollama(Seq<char>),
    EnableThinking(bool),
    Compatible(Seq<char>),
}

pub open spec fn request_view(r: ReasoningRequest) -> RequestView {
    match r {
        ReasoningRequest::Plain => RequestView::Plain,
        ReasoningRequest::Deepseek { enabled, effort } => RequestView::Deepseek(enabled, opt_str(effort)),
        ReasoningRequest::Ollama(e) => RequestView::Ollama(e@),
        ReasoningRequest::EnableThinking(b) => RequestView::EnableThinking(b),
        ReasoningRequest::Compatible(e) => RequestView::Compatible(e@),
    }
}

/// Knowledge mapping and concept hints need little reasoning.
pub open spec fn light_task(task: ModelTaskKind) -> bool {
    task == ModelTaskKind::KnowledgeMapping || task == ModelTaskKind::Hint(HintLevel::Concept)
}

pub open spec fn deepseek_effort(task: ModelTaskKind, mode: EffortMode) -> Seq<char> {
    if light_task(task) {
        "low"@
    } else {
        match mode {
            EffortMode::Auto | EffortMode::Low | EffortMode::Medium => "low"@,
            EffortMode::High | EffortMode::Xhigh => "high"@,
            EffortMode::Max => "max"@,
        }
    }
}

pub open spec fn ollama_effort(reasoning: bool, gpt_oss: bool, task: ModelTaskKind, mode: EffortMode) -> Seq<char> {
    if !reasoning {
        if gpt_oss {
            "low"@
        } else {
            "none"@
        }
    } else if light_task(task) {
        "low"@
    } else {
        match mode {
            EffortMode::Auto | EffortMode::Medium => "medium"@,
            EffortMode::Low => "low"@,
            EffortMode::High | EffortMode::Xhigh | EffortMode::Max => "high"@,
        }
    }
}

pub open spec fn reasoning_request_spec(config: ModelConfig, effort: Seq<char>, mode: EffortMode, task: ModelTaskKind) -> RequestView {
    match resolved_protocol_spec(config.reasoning_protocol, config.endpoint@) {
        ReasoningProtocol::Deepseek => RequestView::Deepseek(
            config.reasoning,
            if config.reasoning {
                Some(deepseek_effort(task, mode))
            } else {
                None
            },
        ),
        ReasoningProtocol::Ollama => RequestView::Ollama(
            ollama_effort(config.reasoning, is_gpt_oss_spec(config), task, mode),
        ),
        ReasoningProtocol::EnableThinking => RequestView::EnableThinking(config.reasoning),
        _ => if config.reasoning {
            RequestView::Compatible(effort)
        } else {
            RequestView::Plain
        },
    }
}

fn is_light_task(task: ModelTaskKind) -> (r: bool)
    ensures
        r == light_task(task),
{
    match task {
        ModelTaskKind::KnowledgeMapping => true,
        ModelTaskKind::Hint(HintLevel::Concept) => true,
        _ => false,
    }
}

/// Which reasoning fields a request for `task` carries, given the service
/// configuration, the policy's effort name and the effort mode.
pub fn reasoning_request(config: &ModelConfig, effort: &str, mode: EffortMode, task: ModelTaskKind) -> (r: ReasoningRequest)
    ensures
        request_view(r) == reasoning_request_spec(*config, effort@, mode, task),
{
    match config.resolved_reasoning_protocol() {
        ReasoningProtocol::Deepseek => {
            if config.reasoning {
                let e = if is_light_task(task) {
                    "low"
                } else {
                    match mode {
                        EffortMode::Auto | EffortMode::Low | EffortMode::Medium => "low",
                        EffortMode::High | EffortMode::Xhigh => "high",
                        EffortMode::Max => "max",
                    }
                };
                ReasoningRequest::Deepseek { enabled: true, effort: Some(string_from(e)) }
            } else {
                ReasoningRequest::Deepseek { enabled: false, effort: None }
            }
        },
        ReasoningProtocol::Ollama => {
            let e = if !config.reasoning {
                if config.is_ollama_gpt_oss() {
                    "low"
                } else {
                    "none"
                }
            } else if is_light_task(task) {
                "low"
            } else {
                match mode {
                    EffortMode::Auto | EffortMode::Medium => "medium",
                    EffortMode::Low => "low",
                    EffortMode::High | EffortMode::Xhigh | EffortMode::Max => "high",
                }
            };
            ReasoningRequest::Ollama(string_from(e))
        },
        ReasoningProtocol::EnableThinking => ReasoningRequest::EnableThinking(config.reasoning),
        _ => {
            if config.reasoning {
                ReasoningRequest::Compatible(string_from(effort))
            } else {
                ReasoningRequest::Plain
            }
        },
    }
}

} // verus!
