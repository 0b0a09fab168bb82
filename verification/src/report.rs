//! Diagnosis reports: compile diagnostics and failed tests as terminal text
//! (plain or coloured) and as Markdown.
use crate::analysis::classifier::ClassifiedView;
use crate::analysis::error_parser::{opt_loc, opt_str, DiagnosticView, RustcDiagnostic, Severity, SourceLocation};
use crate::analysis::hint::{compile_hint_spec, generate_compile_hint};
use crate::analysis::hint::{location_text_spec, points_joined, push_location, push_points_joined, Hint};
use crate::models::{Diagnostic, ErrorCategory, HintLevel, KnowledgePoint, TestResult};
use crate::text::{
    chars_of, decimal, find_spec, has_prefix, has_suffix, join_spec, lines, lines_spec, match_at, push_char,
    push_chars, push_decimal, push_str, starts_with_str, string_from, trim, trim_end, trim_end_spec,
    trim_spec, trim_start, trim_start_spec, trimmed, views,
};
use vstd::prelude::*;

verus! {

// ------------------------------------------------------------------
// Small pieces
// ------------------------------------------------------------------

/// `\n` written as the two characters `\` and `n`.
pub open spec fn escape_newlines(s: Seq<char>) -> Seq<char>
    decreases s.len(),
{
    if s.len() == 0 {
        s
    } else {
        escape_newlines(s.drop_last()) + if s.last() == '\n' {
            seq!['\\', 'n']
        } else {
            seq![s.last()]
        }
    }
}

/// An output as shown in a report: trimmed, on one line, or `<空输出>`.
pub open spec fn visible_spec(v: Seq<char>) -> Seq<char> {
    let t = trim_spec(v);
    if t.len() == 0 {
        "<空输出>"@
    } else {
        escape_newlines(t)
    }
}

fn push_escaped(out: &mut String, v: &Vec<char>)
    ensures
        final(out)@ == old(out)@ + escape_newlines(v@),
{
    let ghost start = old(out)@;
    let mut i: usize = 0;
    assert(v@.take(0) =~= Seq::<char>::empty());
    while i < v.len()
        invariant
            i <= v@.len(),
            out@ == start + escape_newlines(v@.take(i as int)),
        decreases v.len() - i,
    {
        assert(v@.take(i + 1).drop_last() =~= v@.take(i as int));
        let ghost before = out@;
        if v[i] == '\n' {
            push_char(out, '\\');
            push_char(out, 'n');
            assert(out@ =~= before + seq!['\\', 'n']);
        } else {
            push_char(out, v[i]);
            assert(out@ =~= before + seq![v@[i as int]]);
        }
        i = i + 1;
        assert(out@ =~= start + escape_newlines(v@.take(i as int)));
    }
    assert(v@.take(v@.len() as int) =~= v@);
}

fn push_visible(out: &mut String, value: &str)
    ensures
        final(out)@ == old(out)@ + visible_spec(value@),
{
    let t = trimmed(value);
    if t.len() == 0 {
        push_str(out, "<空输出>");
    } else {
        push_escaped(out, &t);
    }
}

/// A report's view of an output: trimmed, `\n` escaped, `<空输出>` when empty.
pub fn visible_output(value: &str) -> (r: String)
    ensures
        r@ == visible_spec(value@),
{
    let mut out = String::new();
    push_visible(&mut out, value);
    assert(out@ =~= visible_spec(value@));
    out
}

pub open spec fn style_spec(text: Seq<char>, code: Seq<char>, enabled: bool) -> Seq<char> {
    if enabled {
        "\x1b["@ + code + "m"@ + text + "\x1b[0m"@
    } else {
        text
    }
}

fn push_styled(out: &mut String, text: &str, code: &str, enabled: bool)
    ensures
        final(out)@ == old(out)@ + style_spec(text@, code@, enabled),
{
    let ghost start = old(out)@;
    if enabled {
        push_str(out, "\x1b[");
        push_str(out, code);
        push_str(out, "m");
        push_str(out, text);
        push_str(out, "\x1b[0m");
        assert(out@ =~= start + style_spec(text@, code@, enabled));
    } else {
        push_str(out, text);
    }
}

/// `text` in an ANSI style when colour is enabled.
pub fn terminal_style(text: &str, code: &str, enabled: bool) -> (r: String)
    ensures
        r@ == style_spec(text@, code@, enabled),
{
    let mut out = String::new();
    push_styled(&mut out, text, code, enabled);
    assert(out@ =~= style_spec(text@, code@, enabled));
    out
}

pub open spec fn category_label_spec(c: ErrorCategory) -> Seq<char> {
    match c {
        ErrorCategory::CompileError => "编译错误"@,
        ErrorCategory::RuntimeError => "运行时错误"@,
        ErrorCategory::LogicError => "逻辑错误"@,
        ErrorCategory::BoundaryCondition => "边界条件错误"@,
        ErrorCategory::AlgorithmError => "算法错误"@,
    }
}

/// The report label of an error category.
pub fn category_label(c: ErrorCategory) -> (r: &'static str)
    ensures
        r@ == category_label_spec(c),
{
    match c {
        ErrorCategory::CompileError => "编译错误",
        ErrorCategory::RuntimeError => "运行时错误",
        ErrorCategory::LogicError => "逻辑错误",
        ErrorCategory::BoundaryCondition => "边界条件错误",
        ErrorCategory::AlgorithmError => "算法错误",
    }
}

pub open spec fn test_label_spec(c: ErrorCategory) -> Seq<char> {
    if c == ErrorCategory::RuntimeError {
        "运行时错误"@
    } else {
        "测试失败"@
    }
}

fn test_label(c: ErrorCategory) -> (r: &'static str)
    ensures
        r@ == test_label_spec(c),
{
    if c == ErrorCategory::RuntimeError {
        "运行时错误"
    } else {
        "测试失败"
    }
}

/// Knowledge points of a compile entry, or `待分析`.
pub open spec fn compile_points_spec(points: Seq<crate::models::KnowledgePoint>) -> Seq<char> {
    if points.len() == 0 {
        "待分析"@
    } else {
        points_joined(points)
    }
}

/// Knowledge points of a test entry, or a note that a model maps them.
pub open spec fn test_points_spec(points: Seq<crate::models::KnowledgePoint>) -> Seq<char> {
    if points.len() == 0 {
        "待分析（配置 LLM 后自动映射）"@
    } else {
        points_joined(points)
    }
}

fn push_compile_points(out: &mut String, points: &Vec<crate::models::KnowledgePoint>)
    ensures
        final(out)@ == old(out)@ + compile_points_spec(points@),
{
    if points.len() == 0 {
        push_str(out, "待分析");
    } else {
        push_points_joined(out, points);
    }
}

fn push_test_points(out: &mut String, points: &Vec<crate::models::KnowledgePoint>)
    ensures
        final(out)@ == old(out)@ + test_points_spec(points@),
{
    if points.len() == 0 {
        push_str(out, "待分析（配置 LLM 后自动映射）");
    } else {
        push_points_joined(out, points);
    }
}

/// Each line indented by four spaces and ended by a newline.
pub open spec fn indented(ls: Seq<Seq<char>>) -> Seq<char>
    decreases ls.len(),
{
    if ls.len() == 0 {
        Seq::empty()
    } else {
        indented(ls.drop_last()) + "    "@ + ls.last() + "\n"@
    }
}

/// A hint in terminal text: on the label's line, or below it, indented, when
/// it has several lines.
pub open spec fn text_hint_spec(label: Seq<char>, content: Seq<char>) -> Seq<char> {
    if find_spec(content, seq!['\n']) is Some {
        label + "\n"@ + indented(lines_spec(content))
    } else {
        label + content + "\n"@
    }
}

/// Appends a hint under `label` as terminal text.
pub fn push_text_hint(out: &mut String, label: &str, content: &str)
    ensures
        final(out)@ == old(out)@ + text_hint_spec(label@, content@),
{
    let ghost start = old(out)@;
    let c = chars_of(content);
    if crate::text::find_char(&c, '\n').is_some() {
        push_str(out, label);
        push_str(out, "\n");
        let ls = lines(&c);
        let ghost lv = views(ls@);
        let ghost head = out@;
        let mut i: usize = 0;
        assert(lv.take(0) =~= Seq::<Seq<char>>::empty());
        while i < ls.len()
            invariant
                i <= ls@.len(),
                lv == views(ls@),
                out@ == head + indented(lv.take(i as int)),
            decreases ls.len() - i,
        {
            assert(lv.take(i + 1).drop_last() =~= lv.take(i as int));
            assert(lv[i as int] == ls@[i as int]@);
            push_str(out, "    ");
            push_chars(out, &ls[i]);
            push_str(out, "\n");
            i = i + 1;
            assert(out@ =~= head + indented(lv.take(i as int)));
        }
        assert(lv.take(ls@.len() as int) =~= lv);
        assert(out@ =~= start + text_hint_spec(label@, content@));
    } else {
        push_str(out, label);
        push_str(out, content);
        push_str(out, "\n");
        assert(out@ =~= start + text_hint_spec(label@, content@));
    }
}

pub open spec fn markdown_hint_spec(content: Seq<char>) -> Seq<char> {
    if find_spec(content, seq!['\n']) is Some {
        "- **提示**:\n\n"@ + trim_spec(content) + "\n\n"@
    } else {
        "- **提示**: "@ + content + "\n\n"@
    }
}

/// Appends a hint as a Markdown list item.
pub fn push_markdown_hint(out: &mut String, content: &str)
    ensures
        final(out)@ == old(out)@ + markdown_hint_spec(content@),
{
    let ghost start = old(out)@;
    let c = chars_of(content);
    if crate::text::find_char(&c, '\n').is_some() {
        push_str(out, "- **提示**:\n\n");
        push_chars(out, &trim(&c));
        push_str(out, "\n\n");
    } else {
        push_str(out, "- **提示**: ");
        push_str(out, content);
        push_str(out, "\n\n");
    }
    assert(out@ =~= start + markdown_hint_spec(content@));
}

// ------------------------------------------------------------------
// Colour
// ------------------------------------------------------------------

pub open spec fn line_color(line: Seq<char>) -> Option<Seq<char>> {
    if has_prefix(line, "["@) {
        Some("\x1b[31;1m"@)
    } else if has_prefix(trim_start_spec(line), "知识点"@) {
        Some("\x1b[33m"@)
    } else if has_prefix(trim_start_spec(line), "提示"@) {
        Some("\x1b[34;1m"@)
    } else if has_prefix(line, "✓"@) || has_prefix(line, "未发现问题"@) {
        Some("\x1b[32;1m"@)
    } else {
        None
    }
}

pub open spec fn colorize_spec(line: Seq<char>) -> Seq<char> {
    match line_color(line) {
        Some(c) => c + line + "\x1b[0m"@,
        None => line,
    }
}

/// Colours a report line by what it starts with: headings red, knowledge
/// points yellow, hints blue, success green.
pub fn colorize_line(line: &str) -> (r: String)
    ensures
        r@ == colorize_spec(line@),
{
    let l = chars_of(line);
    let t = trim_start(&l);
    let color: Option<&str> = if starts_with_str(&l, "[") {
        Some("\x1b[31;1m")
    } else if starts_with_str(&t, "知识点") {
        Some("\x1b[33m")
    } else if starts_with_str(&t, "提示") {
        Some("\x1b[34;1m")
    } else if starts_with_str(&l, "✓") || starts_with_str(&l, "未发现问题") {
        Some("\x1b[32;1m")
    } else {
        None
    };
    match color {
        Some(c) => {
            let mut out = string_from(c);
            push_str(&mut out, line);
            push_str(&mut out, "\x1b[0m");
            out
        },
        None => string_from(line),
    }
}

// ------------------------------------------------------------------
// Test runs
// ------------------------------------------------------------------

pub open spec fn count_passed(rs: Seq<TestResult>) -> nat
    decreases rs.len(),
{
    if rs.len() == 0 {
        0
    } else {
        count_passed(rs.drop_last()) + if rs.last().passed {
            1nat
        } else {
            0nat
        }
    }
}

/// The lines under a failed test: expected and actual output, and the runtime error.
pub open spec fn failure_detail_spec(r: TestResult) -> Seq<char> {
    "│   期望："@ + visible_spec(r.expected_output@) + "\n"@ + "│   实际："@ + visible_spec(
        r.actual_output@,
    ) + "\n"@ + match r.runtime_error {
        Some(e) => "│   运行错误："@ + visible_spec(e@) + "\n"@,
        None => Seq::empty(),
    }
}

pub open spec fn run_line_spec(r: TestResult, colored: bool) -> Seq<char> {
    if r.passed {
        "│ "@ + style_spec("✓"@, "1;32"@, colored) + " "@ + r.name@ + "\n"@
    } else {
        "│ "@ + style_spec("✗"@, "1;31"@, colored) + " "@ + r.name@ + "\n"@ + failure_detail_spec(r)
    }
}

fn push_failure_detail(out: &mut String, r: &TestResult)
    ensures
        final(out)@ == old(out)@ + failure_detail_spec(*r),
{
    let ghost start = old(out)@;
    push_str(out, "│   期望：");
    push_visible(out, r.expected_output.as_str());
    push_str(out, "\n");
    push_str(out, "│   实际：");
    push_visible(out, r.actual_output.as_str());
    push_str(out, "\n");
    let ghost mid = out@;
    match &r.runtime_error {
        Some(e) => {
            push_str(out, "│   运行错误：");
            push_visible(out, e.as_str());
            push_str(out, "\n");
        },
        None => {},
    }
    assert(out@ =~= start + failure_detail_spec(*r));
}

pub open spec fn run_lines_spec(rs: Seq<TestResult>, colored: bool) -> Seq<char>
    decreases rs.len(),
{
    if rs.len() == 0 {
        Seq::empty()
    } else {
        run_lines_spec(rs.drop_last(), colored) + run_line_spec(rs.last(), colored)
    }
}

pub open spec fn test_run_spec(rs: Seq<TestResult>, colored: bool) -> Seq<char> {
    "\n┌─ "@ + style_spec("测试结果"@, "1;36"@, colored) + "  "@ + decimal(count_passed(rs)) + "/"@
        + decimal(rs.len()) + " 通过 ─────────────────────\n"@ + run_lines_spec(rs, colored)
        + "└────────────────────────────────────────────\n"@
}

/// The number a test-run box shows before `/` is the number of results whose
/// `passed` flag is set, and the number after it is the number of results:
/// all passing results count in full, all failing results count zero.
pub proof fn law_test_run_counts_passed_results(rs: Seq<TestResult>, colored: bool)
    ensures
        count_passed(rs) == rs.filter(|r: TestResult| r.passed).len(),
        count_passed(rs) <= rs.len(),
        (forall|i: int| 0 <= i < rs.len() ==> #[trigger] rs[i].passed) ==> count_passed(rs) == rs.len(),
        (forall|i: int| 0 <= i < rs.len() ==> !(#[trigger] rs[i].passed)) ==> count_passed(rs) == 0,
        test_run_spec(rs, colored) == "\n┌─ "@ + style_spec("测试结果"@, "1;36"@, colored) + "  "@
            + decimal(rs.filter(|r: TestResult| r.passed).len()) + "/"@ + decimal(rs.len())
            + " 通过 ─────────────────────\n"@ + run_lines_spec(rs, colored)
            + "└────────────────────────────────────────────\n"@,
    decreases rs.len(),
{
    reveal(Seq::filter);
    if rs.len() > 0 {
        law_test_run_counts_passed_results(rs.drop_last(), colored);
        assert forall|i: int| 0 <= i < rs.drop_last().len() implies rs.drop_last()[i] == rs[i] by {}
    }
}

fn push_run_line(out: &mut String, r: &TestResult, colored: bool)
    ensures
        final(out)@ == old(out)@ + run_line_spec(*r, colored),
{
    let ghost start = old(out)@;
    push_str(out, "│ ");
    if r.passed {
        push_styled(out, "✓", "1;32", colored);
        push_str(out, " ");
        push_str(out, r.name.as_str());
        push_str(out, "\n");
    } else {
        push_styled(out, "✗", "1;31", colored);
        push_str(out, " ");
        push_str(out, r.name.as_str());
        push_str(out, "\n");
        push_failure_detail(out, r);
    }
    assert(out@ =~= start + run_line_spec(*r, colored));
}

/// The box that lists every test result, with passes counted.
pub fn format_test_run(results: &Vec<TestResult>, colored: bool) -> (r: String)
    ensures
        r@ == test_run_spec(results@, colored),
{
    let mut passed: u64 = 0;
    let mut body = String::new();
    let mut i: usize = 0;
    assert(results@.take(0) =~= Seq::<TestResult>::empty());
    while i < results.len()
        invariant
            i <= results@.len(),
            passed == count_passed(results@.take(i as int)),
            passed <= i,
            body@ == run_lines_spec(results@.take(i as int), colored),
        decreases results.len() - i,
    {
        assert(results@.take(i + 1).drop_last() =~= results@.take(i as int));
        if results[i].passed {
            passed = passed + 1;
        }
        push_run_line(&mut body, &results[i], colored);
        i = i + 1;
    }
    assert(results@.take(results@.len() as int) =~= results@);
    let mut out = string_from("\n┌─ ");
    push_styled(&mut out, "测试结果", "1;36", colored);
    push_str(&mut out, "  ");
    push_decimal(&mut out, passed);
    push_str(&mut out, "/");
    push_decimal(&mut out, results.len() as u64);
    push_str(&mut out, " 通过 ─────────────────────\n");
    push_str(&mut out, body.as_str());
    push_str(&mut out, "└────────────────────────────────────────────\n");
    assert(out@ =~= test_run_spec(results@, colored));
    out
}

// ------------------------------------------------------------------
// Entries
// ------------------------------------------------------------------

/// One compile diagnostic in a report.
#[derive(Debug, Clone)]
pub struct CompileReportEntry {
    pub diag: RustcDiagnostic,
    pub classified: Diagnostic,
    pub hint: Hint,
}

/// One failed test in a report.
#[derive(Debug, Clone)]
pub struct TestReportEntry {
    pub result: TestResult,
    pub classified: Diagnostic,
    pub hint: Hint,
}

pub open spec fn location_or_unknown(loc: Option<crate::analysis::error_parser::LocationView>) -> Seq<char> {
    match loc {
        Some(l) => location_text_spec(l),
        None => "未知位置"@,
    }
}

fn push_location_or_unknown(out: &mut String, loc: &Option<crate::analysis::error_parser::SourceLocation>)
    ensures
        final(out)@ == old(out)@ + location_or_unknown(opt_loc(*loc)),
{
    match loc {
        Some(l) => push_location(out, l),
        None => push_str(out, "未知位置"),
    }
}

pub open spec fn compile_text_spec(e: CompileReportEntry) -> Seq<char> {
    let msg = e.diag.message@;
    "["@ + category_label_spec(e.classified.category) + "] "@ + location_or_unknown(opt_loc(e.diag.location))
        + match opt_str(e.diag.code) {
        Some(c) => "  "@ + c + " ("@ + msg + ")"@,
        None => "  ("@ + msg + ")"@,
    } + "\n"@ + "  知识点："@ + compile_points_spec(e.classified.knowledge_points@) + "\n"@
        + text_hint_spec("  提示："@, e.hint.content@)
}

#[verifier::rlimit(40)]
fn push_compile_text(out: &mut String, e: &CompileReportEntry)
    ensures
        final(out)@ == old(out)@ + compile_text_spec(*e),
{
    let ghost start = old(out)@;
    push_str(out, "[");
    push_str(out, category_label(e.classified.category));
    push_str(out, "] ");
    push_location_or_unknown(out, &e.diag.location);
    match &e.diag.code {
        Some(c) => {
            push_str(out, "  ");
            push_str(out, c.as_str());
            push_str(out, " (");
        },
        None => {
            push_str(out, "  (");
        },
    }
    push_str(out, e.diag.message.as_str());
    push_str(out, ")");
    push_str(out, "\n");
    push_str(out, "  知识点：");
    push_compile_points(out, &e.classified.knowledge_points);
    push_str(out, "\n");
    push_text_hint(out, "  提示：", e.hint.content.as_str());
    assert(out@ =~= start + compile_text_spec(*e));
}

pub open spec fn runtime_error_text(err: Option<String>) -> Seq<char> {
    match err {
        Some(x) => "  运行错误："@ + trim_spec(x@) + "\n"@,
        None => Seq::empty(),
    }
}

pub open spec fn test_text_spec(e: TestReportEntry) -> Seq<char> {
    "["@ + test_label_spec(e.classified.category) + "] "@ + e.result.name@ + "\n"@ + "  期望输出："@
        + visible_spec(e.result.expected_output@) + "\n"@ + "  实际输出："@ + visible_spec(
        e.result.actual_output@,
    ) + "\n"@ + runtime_error_text(e.result.runtime_error) + "  知识点："@ + test_points_spec(
        e.classified.knowledge_points@,
    ) + "\n"@ + text_hint_spec("  提示："@, e.hint.content@)
}

#[verifier::spinoff_prover]
#[verifier::rlimit(40)]
fn push_test_text(out: &mut String, e: &TestReportEntry)
    ensures
        final(out)@ == old(out)@ + test_text_spec(*e),
{
    let ghost start = old(out)@;
    push_str(out, "[");
    push_str(out, test_label(e.classified.category));
    push_str(out, "] ");
    push_str(out, e.result.name.as_str());
    push_str(out, "\n");
    push_str(out, "  期望输出：");
    push_visible(out, e.result.expected_output.as_str());
    push_str(out, "\n");
    push_str(out, "  实际输出：");
    push_visible(out, e.result.actual_output.as_str());
    push_str(out, "\n");
    let ghost mid = out@;
    match &e.result.runtime_error {
        Some(x) => {
            push_str(out, "  运行错误：");
            push_chars(out, &trimmed(x.as_str()));
            push_str(out, "\n");
        },
        None => {},
    }
    assert(out@ =~= mid + runtime_error_text(e.result.runtime_error));
    push_str(out, "  知识点：");
    push_test_points(out, &e.classified.knowledge_points);
    push_str(out, "\n");
    push_text_hint(out, "  提示：", e.hint.content.as_str());
    assert(out@ =~= start + test_text_spec(*e));
}

pub open spec fn compile_markdown_spec(e: CompileReportEntry) -> Seq<char> {
    "### "@ + category_label_spec(e.classified.category) + " `"@ + match opt_str(e.diag.code) {
        Some(c) => c,
        None => "无错误码"@,
    } + "`\n\n"@ + "- **位置**: `"@ + location_or_unknown(opt_loc(e.diag.location)) + "`\n"@
        + "- **消息**: "@ + e.diag.message@ + "\n"@ + "- **知识点**: "@ + compile_points_spec(
        e.classified.knowledge_points@,
    ) + "\n"@ + markdown_hint_spec(e.hint.content@)
}

#[verifier::rlimit(40)]
fn push_compile_markdown(out: &mut String, e: &CompileReportEntry)
    ensures
        final(out)@ == old(out)@ + compile_markdown_spec(*e),
{
    let ghost start = old(out)@;
    push_str(out, "### ");
    push_str(out, category_label(e.classified.category));
    push_str(out, " `");
    match &e.diag.code {
        Some(c) => push_str(out, c.as_str()),
        None => push_str(out, "无错误码"),
    }
    push_str(out, "`\n\n");
    push_str(out, "- **位置**: `");
    push_location_or_unknown(out, &e.diag.location);
    push_str(out, "`\n");
    push_str(out, "- **消息**: ");
    push_str(out, e.diag.message.as_str());
    push_str(out, "\n");
    push_str(out, "- **知识点**: ");
    push_compile_points(out, &e.classified.knowledge_points);
    push_str(out, "\n");
    push_markdown_hint(out, e.hint.content.as_str());
    assert(out@ =~= start + compile_markdown_spec(*e));
}

pub open spec fn runtime_error_markdown(err: Option<String>) -> Seq<char> {
    match err {
        Some(x) => "- **运行错误**: `"@ + trim_spec(x@) + "`\n"@,
        None => Seq::empty(),
    }
}

pub open spec fn test_markdown_spec(e: TestReportEntry) -> Seq<char> {
    "### "@ + test_label_spec(e.classified.category) + ": `"@ + e.result.name@ + "`\n\n"@
        + "- **期望输出**: `"@ + trim_spec(e.result.expected_output@) + "`\n"@ + "- **实际输出**: `"@
        + trim_spec(e.result.actual_output@) + "`\n"@ + runtime_error_markdown(e.result.runtime_error)
        + "- **知识点**: "@ + test_points_spec(e.classified.knowledge_points@) + "\n"@
        + markdown_hint_spec(e.hint.content@)
}

#[verifier::rlimit(40)]
fn push_test_markdown(out: &mut String, e: &TestReportEntry)
    ensures
        final(out)@ == old(out)@ + test_markdown_spec(*e),
{
    let ghost start = old(out)@;
    push_str(out, "### ");
    push_str(out, test_label(e.classified.category));
    push_str(out, ": `");
    push_str(out, e.result.name.as_str());
    push_str(out, "`\n\n");
    push_str(out, "- **期望输出**: `");
    push_chars(out, &trimmed(e.result.expected_output.as_str()));
    push_str(out, "`\n");
    push_str(out, "- **实际输出**: `");
    push_chars(out, &trimmed(e.result.actual_output.as_str()));
    push_str(out, "`\n");
    let ghost mid = out@;
    match &e.result.runtime_error {
        Some(x) => {
            push_str(out, "- **运行错误**: `");
            push_chars(out, &trimmed(x.as_str()));
            push_str(out, "`\n");
        },
        None => {},
    }
    assert(out@ =~= mid + runtime_error_markdown(e.result.runtime_error));
    push_str(out, "- **知识点**: ");
    push_test_points(out, &e.classified.knowledge_points);
    push_str(out, "\n");
    push_markdown_hint(out, e.hint.content.as_str());
    assert(out@ =~= start + test_markdown_spec(*e));
}

// ------------------------------------------------------------------
// Reports
// ------------------------------------------------------------------

/// A whole report: compile diagnostics, failed tests, and how many tests ran
/// and passed (`None` when none ran).
#[derive(Debug, Clone)]
pub struct DiagnosticReport {
    pub compile_entries: Vec<CompileReportEntry>,
    pub test_entries: Vec<TestReportEntry>,
    pub test_run: Option<(usize, usize)>,
}

pub open spec fn summary_text(test_run: Option<(usize, usize)>) -> Seq<char> {
    match test_run {
        Some((total, passed)) => "✓ 未发现问题：编译通过，测试 "@ + decimal(passed as nat) + "/"@ + decimal(
            total as nat,
        ) + " 通过。\n"@,
        None => "✓ 编译通过；本轮没有执行测试。\n"@,
    }
}

pub open spec fn summary_markdown(test_run: Option<(usize, usize)>) -> Seq<char> {
    match test_run {
        Some((total, passed)) => "✅ 未发现问题：编译通过，测试 "@ + decimal(passed as nat) + "/"@ + decimal(
            total as nat,
        ) + " 通过。\n"@,
        None => "✅ 编译通过；本轮没有执行测试。\n"@,
    }
}

/// The compile entries as text, leaving out the indices in `skip`.
pub open spec fn compile_texts(es: Seq<CompileReportEntry>, skip: Seq<usize>) -> Seq<char>
    decreases es.len(),
{
    if es.len() == 0 {
        Seq::empty()
    } else {
        compile_texts(es.drop_last(), skip) + if skip.contains((es.len() - 1) as usize) {
            Seq::empty()
        } else {
            compile_text_spec(es.last()) + "\n"@
        }
    }
}

/// The test entries as text, leaving out the indices in `skip`.
pub open spec fn test_texts(es: Seq<TestReportEntry>, skip: Seq<usize>) -> Seq<char>
    decreases es.len(),
{
    if es.len() == 0 {
        Seq::empty()
    } else {
        test_texts(es.drop_last(), skip) + if skip.contains((es.len() - 1) as usize) {
            Seq::empty()
        } else {
            test_text_spec(es.last()) + "\n"@
        }
    }
}

pub open spec fn report_empty(r: DiagnosticReport) -> bool {
    r.compile_entries@.len() == 0 && r.test_entries@.len() == 0
}

pub open spec fn text_excluding_spec(r: DiagnosticReport, compile: Seq<usize>, tests: Seq<usize>) -> Seq<char> {
    compile_texts(r.compile_entries@, compile) + test_texts(r.test_entries@, tests) + if report_empty(r) {
        summary_text(r.test_run)
    } else {
        Seq::empty()
    }
}

pub open spec fn compile_markdowns(es: Seq<CompileReportEntry>) -> Seq<char>
    decreases es.len(),
{
    if es.len() == 0 {
        Seq::empty()
    } else {
        compile_markdowns(es.drop_last()) + compile_markdown_spec(es.last()) + "\n"@
    }
}

pub open spec fn test_markdowns(es: Seq<TestReportEntry>) -> Seq<char>
    decreases es.len(),
{
    if es.len() == 0 {
        Seq::empty()
    } else {
        test_markdowns(es.drop_last()) + test_markdown_spec(es.last()) + "\n"@
    }
}

pub open spec fn markdown_spec(r: DiagnosticReport) -> Seq<char> {
    "# 诊断报告\n\n"@ + if report_empty(r) {
        summary_markdown(r.test_run)
    } else {
        (if r.compile_entries@.len() > 0 {
            "## 编译诊断\n\n"@ + compile_markdowns(r.compile_entries@)
        } else {
            Seq::empty()
        }) + if r.test_entries@.len() > 0 {
            "## 测试失败\n\n"@ + test_markdowns(r.test_entries@)
        } else {
            Seq::empty()
        }
    }
}

/// One line coloured, with the state: whether a multi-line hint is open.
pub open spec fn color_step(line: Seq<char>, in_hint: bool) -> (Seq<char>, bool) {
    let in_hint = if has_prefix(line, "["@) {
        false
    } else {
        in_hint
    };
    if has_prefix(trim_start_spec(line), "提示"@) {
        (colorize_spec(line), has_suffix(trim_end_spec(line), ":"@) || has_suffix(trim_end_spec(line), "："@))
    } else if in_hint && line.len() > 0 {
        ("\x1b[34;1m"@ + line + "\x1b[0m"@, in_hint)
    } else {
        (colorize_spec(line), in_hint)
    }
}

/// The lines coloured in order, and the final state.
pub open spec fn color_lines(ls: Seq<Seq<char>>) -> (Seq<Seq<char>>, bool)
    decreases ls.len(),
{
    if ls.len() == 0 {
        (Seq::empty(), false)
    } else {
        let prev = color_lines(ls.drop_last());
        let step = color_step(ls.last(), prev.1);
        (prev.0.push(step.0), step.1)
    }
}

pub open spec fn colored_spec(text: Seq<char>) -> Seq<char> {
    join_spec(color_lines(lines_spec(text)).0, "\n"@) + "\n"@
}

fn contains_index(v: &Vec<usize>, i: usize) -> (r: bool)
    ensures
        r == v@.contains(i),
{
    let mut k: usize = 0;
    while k < v.len()
        invariant
            k <= v@.len(),
            forall|j: int| 0 <= j < k ==> v@[j] != i,
        decreases v.len() - k,
    {
        if v[k] == i {
            return true;
        }
        k = k + 1;
    }
    false
}

fn push_summary(out: &mut String, test_run: Option<(usize, usize)>, markdown: bool)
    ensures
        final(out)@ == old(out)@ + if markdown {
            summary_markdown(test_run)
        } else {
            summary_text(test_run)
        },
{
    let ghost start = old(out)@;
    if markdown {
        push_str(out, "✅ ");
    } else {
        push_str(out, "✓ ");
    }
    match test_run {
        Some((total, passed)) => {
            push_str(out, "未发现问题：编译通过，测试 ");
            push_decimal(out, passed as u64);
            push_str(out, "/");
            push_decimal(out, total as u64);
            push_str(out, " 通过。\n");
        },
        None => push_str(out, "编译通过；本轮没有执行测试。\n"),
    }
    proof {
        reveal_strlit("✅ ");
        reveal_strlit("✓ ");
        reveal_strlit("未发现问题：编译通过，测试 ");
        reveal_strlit("编译通过；本轮没有执行测试。\n");
        reveal_strlit("✅ 未发现问题：编译通过，测试 ");
        reveal_strlit("✓ 未发现问题：编译通过，测试 ");
        reveal_strlit("✅ 编译通过；本轮没有执行测试。\n");
        reveal_strlit("✓ 编译通过；本轮没有执行测试。\n");
    }
    assert(out@ =~= start + if markdown {
        summary_markdown(test_run)
    } else {
        summary_text(test_run)
    });
}

impl DiagnosticReport {
    /// An empty report.
    pub fn new() -> (r: Self)
        ensures
            r.compile_entries@.len() == 0,
            r.test_entries@.len() == 0,
            r.test_run is None,
    {
        DiagnosticReport { compile_entries: Vec::new(), test_entries: Vec::new(), test_run: None }
    }

    pub fn add_compile(&mut self, entry: CompileReportEntry)
        ensures
            final(self).compile_entries@ == old(self).compile_entries@.push(entry),
            final(self).test_entries@ == old(self).test_entries@,
            final(self).test_run == old(self).test_run,
    {
        self.compile_entries.push(entry);
    }

    pub fn add_test(&mut self, entry: TestReportEntry)
        ensures
            final(self).test_entries@ == old(self).test_entries@.push(entry),
            final(self).compile_entries@ == old(self).compile_entries@,
            final(self).test_run == old(self).test_run,
    {
        self.test_entries.push(entry);
    }

    pub fn set_test_run(&mut self, total: usize, passed: usize)
        ensures
            final(self).test_run == Some((total, passed)),
            final(self).compile_entries@ == old(self).compile_entries@,
            final(self).test_entries@ == old(self).test_entries@,
    {
        self.test_run = Some((total, passed));
    }

    /// Whether the report has no diagnostics.
    pub fn is_empty(&self) -> (r: bool)
        ensures
            r == report_empty(*self),
    {
        self.compile_entries.len() == 0 && self.test_entries.len() == 0
    }

    /// Terminal text without the entries already shown (by index).
    pub fn to_text_excluding(&self, compile: &Vec<usize>, tests: &Vec<usize>) -> (r: String)
        ensures
            r@ == text_excluding_spec(*self, compile@, tests@),
    {
        let mut out = String::new();
        let mut i: usize = 0;
        let ghost ce = self.compile_entries@;
        assert(ce.take(0) =~= Seq::<CompileReportEntry>::empty());
        while i < self.compile_entries.len()
            invariant
                i <= ce.len(),
                ce == self.compile_entries@,
                out@ == compile_texts(ce.take(i as int), compile@),
            decreases self.compile_entries.len() - i,
        {
            assert(ce.take(i + 1).drop_last() =~= ce.take(i as int));
            if !contains_index(compile, i) {
                push_compile_text(&mut out, &self.compile_entries[i]);
                push_str(&mut out, "\n");
            }
            i = i + 1;
        }
        assert(ce.take(ce.len() as int) =~= ce);
        let ghost mid = out@;
        let ghost te = self.test_entries@;
        let mut j: usize = 0;
        assert(te.take(0) =~= Seq::<TestReportEntry>::empty());
        assert(out@ =~= mid + test_texts(te.take(0), tests@));
        while j < self.test_entries.len()
            invariant
                j <= te.len(),
                te == self.test_entries@,
                out@ == mid + test_texts(te.take(j as int), tests@),
            decreases self.test_entries.len() - j,
        {
            assert(te.take(j + 1).drop_last() =~= te.take(j as int));
            if !contains_index(tests, j) {
                push_test_text(&mut out, &self.test_entries[j]);
                push_str(&mut out, "\n");
            }
            j = j + 1;
            assert(out@ =~= mid + test_texts(te.take(j as int), tests@));
        }
        assert(te.take(te.len() as int) =~= te);
        let ghost before = out@;
        if self.is_empty() {
            push_summary(&mut out, self.test_run, false);
        }
        assert(out@ =~= text_excluding_spec(*self, compile@, tests@));
        out
    }

    /// Terminal text of the whole report.
    pub fn to_text(&self) -> (r: String)
        ensures
            r@ == text_excluding_spec(*self, Seq::empty(), Seq::empty()),
    {
        let c: Vec<usize> = Vec::new();
        let t: Vec<usize> = Vec::new();
        assert(c@ =~= Seq::<usize>::empty());
        self.to_text_excluding(&c, &t)
    }

    /// Coloured terminal text without the entries already shown: headings red,
    /// knowledge points yellow, hints (with their continuation lines) blue.
    pub fn to_colored_text_excluding(&self, compile: &Vec<usize>, tests: &Vec<usize>) -> (r: String)
        ensures
            r@ == colored_spec(text_excluding_spec(*self, compile@, tests@)),
    {
        let text = self.to_text_excluding(compile, tests);
        let ls = lines(&chars_of(text.as_str()));
        let ghost lv = views(ls@);
        let mut colored: Vec<Vec<char>> = Vec::new();
        let mut in_hint = false;
        let mut i: usize = 0;
        assert(lv.take(0) =~= Seq::<Seq<char>>::empty());
        assert(views(colored@) =~= Seq::<Seq<char>>::empty());
        while i < ls.len()
            invariant
                i <= ls@.len(),
                lv == views(ls@),
                color_lines(lv.take(i as int)) == (views(colored@), in_hint),
            decreases ls.len() - i,
        {
            assert(lv.take(i + 1).drop_last() =~= lv.take(i as int));
            assert(lv.take(i + 1).last() == ls@[i as int]@);
            let line = &ls[i];
            if starts_with_str(line, "[") {
                in_hint = false;
            }
            let t = trim_start(line);
            let piece: Vec<char> = if starts_with_str(&t, "提示") {
                let e = trim_end(line);
                in_hint = crate::text::ends_with_str(&e, ":") || crate::text::ends_with_str(&e, "：");
                chars_of(colorize_line(crate::text::string_of(line).as_str()).as_str())
            } else if in_hint && line.len() > 0 {
                let mut s = string_from("\x1b[34;1m");
                push_chars(&mut s, line);
                push_str(&mut s, "\x1b[0m");
                chars_of(s.as_str())
            } else {
                chars_of(colorize_line(crate::text::string_of(line).as_str()).as_str())
            };
            let ghost before = colored@;
            let ghost pv = piece@;
            colored.push(piece);
            assert(views(colored@) =~= views(before).push(pv));
            i = i + 1;
        }
        assert(lv.take(ls@.len() as int) =~= lv);
        let mut out = crate::text::join_chars(&colored, "\n");
        push_str(&mut out, "\n");
        out
    }

    /// Coloured terminal text of the whole report.
    pub fn to_colored_text(&self) -> (r: String)
        ensures
            r@ == colored_spec(text_excluding_spec(*self, Seq::empty(), Seq::empty())),
    {
        let c: Vec<usize> = Vec::new();
        let t: Vec<usize> = Vec::new();
        assert(c@ =~= Seq::<usize>::empty());
        self.to_colored_text_excluding(&c, &t)
    }

    /// The report as Markdown.
    pub fn to_markdown(&self) -> (r: String)
        ensures
            r@ == markdown_spec(*self),
    {
        let mut out = string_from("# 诊断报告\n\n");
        if self.is_empty() {
            push_summary(&mut out, self.test_run, true);
            return out;
        }
        let ghost head = out@;
        let ghost ce = self.compile_entries@;
        if self.compile_entries.len() > 0 {
            push_str(&mut out, "## 编译诊断\n\n");
            let ghost h2 = out@;
            let mut i: usize = 0;
            assert(ce.take(0) =~= Seq::<CompileReportEntry>::empty());
            assert(out@ =~= h2 + compile_markdowns(ce.take(0)));
            while i < self.compile_entries.len()
                invariant
                    i <= ce.len(),
                    ce == self.compile_entries@,
                    out@ == h2 + compile_markdowns(ce.take(i as int)),
                decreases self.compile_entries.len() - i,
            {
                assert(ce.take(i + 1).drop_last() =~= ce.take(i as int));
                push_compile_markdown(&mut out, &self.compile_entries[i]);
                push_str(&mut out, "\n");
                i = i + 1;
                assert(out@ =~= h2 + compile_markdowns(ce.take(i as int)));
            }
            assert(ce.take(ce.len() as int) =~= ce);
        }
        let ghost mid = out@;
        let ghost te = self.test_entries@;
        if self.test_entries.len() > 0 {
            push_str(&mut out, "## 测试失败\n\n");
            let ghost h3 = out@;
            let mut j: usize = 0;
            assert(te.take(0) =~= Seq::<TestReportEntry>::empty());
            assert(out@ =~= h3 + test_markdowns(te.take(0)));
            while j < self.test_entries.len()
                invariant
                    j <= te.len(),
                    te == self.test_entries@,
                    out@ == h3 + test_markdowns(te.take(j as int)),
                decreases self.test_entries.len() - j,
            {
                assert(te.take(j + 1).drop_last() =~= te.take(j as int));
                push_test_markdown(&mut out, &self.test_entries[j]);
                push_str(&mut out, "\n");
                j = j + 1;
                assert(out@ =~= h3 + test_markdowns(te.take(j as int)));
            }
            assert(te.take(te.len() as int) =~= te);
        }
        assert(out@ =~= markdown_spec(*self));
        out
    }
}

// ------------------------------------------------------------------
// Headings shown before a streamed hint
// ------------------------------------------------------------------

pub open spec fn compile_heading(e: CompileReportEntry) -> Seq<char> {
    "["@ + category_label_spec(e.classified.category) + "] "@ + location_or_unknown(opt_loc(e.diag.location))
        + "  "@ + match opt_str(e.diag.code) {
        Some(c) => c,
        None => "无错误码"@,
    } + " ("@ + e.diag.message@ + ")"@
}

pub open spec fn compile_prefix_spec(e: CompileReportEntry, colored: bool) -> Seq<char> {
    let h = compile_heading(e);
    let v = compile_points_spec(e.classified.knowledge_points@);
    if colored {
        "\x1b[31;1m"@ + h + "\x1b[0m\n  \x1b[33;1m知识点：\x1b[0m"@ + v + "\n  \x1b[34;1m提示：\x1b[0m\n"@
    } else {
        h + "\n  知识点："@ + v + "\n  提示：\n"@
    }
}

pub open spec fn test_prefix_plain(e: TestReportEntry) -> Seq<char> {
    "["@ + test_label_spec(e.classified.category) + "] "@ + e.result.name@ + "\n  期望输出："@
        + visible_spec(e.result.expected_output@) + "\n  实际输出："@ + visible_spec(e.result.actual_output@)
        + "\n"@ + match e.result.runtime_error {
        Some(x) => "  运行错误："@ + visible_spec(x@) + "\n"@,
        None => Seq::empty(),
    } + "  知识点："@ + test_points_spec(e.classified.knowledge_points@) + "\n  提示：\n"@
}

pub open spec fn colorize_all(ls: Seq<Seq<char>>) -> Seq<Seq<char>> {
    Seq::new(ls.len(), |i: int| colorize_spec(ls[i]))
}

pub open spec fn test_prefix_spec(e: TestReportEntry, colored: bool) -> Seq<char> {
    let t = test_prefix_plain(e);
    if colored {
        join_spec(colorize_all(lines_spec(t)), "\n"@) + "\n"@
    } else {
        t
    }
}

#[verifier::rlimit(40)]
fn compile_prefix(e: &CompileReportEntry, colored: bool) -> (r: String)
    ensures
        r@ == compile_prefix_spec(*e, colored),
{
    let mut h = string_from("[");
    push_str(&mut h, category_label(e.classified.category));
    push_str(&mut h, "] ");
    push_location_or_unknown(&mut h, &e.diag.location);
    push_str(&mut h, "  ");
    match &e.diag.code {
        Some(c) => push_str(&mut h, c.as_str()),
        None => push_str(&mut h, "无错误码"),
    }
    push_str(&mut h, " (");
    push_str(&mut h, e.diag.message.as_str());
    push_str(&mut h, ")");
    assert(h@ =~= compile_heading(*e));
    let mut v = String::new();
    push_compile_points(&mut v, &e.classified.knowledge_points);
    assert(v@ =~= compile_points_spec(e.classified.knowledge_points@));
    let mut out = String::new();
    if colored {
        push_str(&mut out, "\x1b[31;1m");
        push_str(&mut out, h.as_str());
        push_str(&mut out, "\x1b[0m\n  \x1b[33;1m知识点：\x1b[0m");
        push_str(&mut out, v.as_str());
        push_str(&mut out, "\n  \x1b[34;1m提示：\x1b[0m\n");
    } else {
        push_str(&mut out, h.as_str());
        push_str(&mut out, "\n  知识点：");
        push_str(&mut out, v.as_str());
        push_str(&mut out, "\n  提示：\n");
    }
    assert(out@ =~= compile_prefix_spec(*e, colored));
    out
}

#[verifier::rlimit(40)]
fn test_prefix(e: &TestReportEntry, colored: bool) -> (r: String)
    ensures
        r@ == test_prefix_spec(*e, colored),
{
    let mut t = string_from("[");
    push_str(&mut t, test_label(e.classified.category));
    push_str(&mut t, "] ");
    push_str(&mut t, e.result.name.as_str());
    push_str(&mut t, "\n  期望输出：");
    push_visible(&mut t, e.result.expected_output.as_str());
    push_str(&mut t, "\n  实际输出：");
    push_visible(&mut t, e.result.actual_output.as_str());
    push_str(&mut t, "\n");
    let ghost mid = t@;
    match &e.result.runtime_error {
        Some(x) => {
            push_str(&mut t, "  运行错误：");
            push_visible(&mut t, x.as_str());
            push_str(&mut t, "\n");
        },
        None => {},
    }
    push_str(&mut t, "  知识点：");
    push_test_points(&mut t, &e.classified.knowledge_points);
    push_str(&mut t, "\n  提示：\n");
    assert(t@ =~= test_prefix_plain(*e));
    if !colored {
        return t;
    }
    let ls = lines(&chars_of(t.as_str()));
    let ghost lv = views(ls@);
    let mut colored_lines: Vec<Vec<char>> = Vec::new();
    let mut i: usize = 0;
    while i < ls.len()
        invariant
            i <= ls@.len(),
            lv == views(ls@),
            views(colored_lines@) == colorize_all(lv).take(i as int),
        decreases ls.len() - i,
    {
        let c = colorize_line(crate::text::string_of(&ls[i]).as_str());
        let ghost before = colored_lines@;
        let cv = chars_of(c.as_str());
        assert(lv[i as int] == ls@[i as int]@);
        assert(cv@ == colorize_all(lv)[i as int]);
        let ghost cvv = cv@;
        colored_lines.push(cv);
        assert(views(colored_lines@) =~= views(before).push(cvv));
        i = i + 1;
        assert(views(colored_lines@) =~= colorize_all(lv).take(i as int));
    }
    assert(colorize_all(lv).take(ls@.len() as int) =~= colorize_all(lv));
    let mut out = crate::text::join_chars(&colored_lines, "\n");
    push_str(&mut out, "\n");
    out
}

impl DiagnosticReport {
    /// The heading printed before the hint of compile entry `index` is streamed.
    pub fn compile_stream_prefix(&self, index: usize, colored: bool) -> (r: String)
        requires
            index < self.compile_entries@.len(),
        ensures
            r@ == compile_prefix_spec(self.compile_entries@[index as int], colored),
    {
        compile_prefix(&self.compile_entries[index], colored)
    }

    /// The heading printed before the hint of test entry `index` is streamed.
    pub fn test_stream_prefix(&self, index: usize, colored: bool) -> (r: String)
        requires
            index < self.test_entries@.len(),
        ensures
            r@ == test_prefix_spec(self.test_entries@[index as int], colored),
    {
        test_prefix(&self.test_entries[index], colored)
    }
}

// ------------------------------------------------------------------
// Building a compile report
// ------------------------------------------------------------------

/// The diagnostics that are not warnings, in order.
pub open spec fn kept_diags(ds: Seq<DiagnosticView>) -> Seq<DiagnosticView>
    decreases ds.len(),
{
    if ds.len() == 0 {
        Seq::empty()
    } else {
        let k = kept_diags(ds.drop_last());
        if ds.last().severity != Severity::Warning {
            k.push(ds.last())
        } else {
            k
        }
    }
}

pub open spec fn diag_views(v: Seq<RustcDiagnostic>) -> Seq<DiagnosticView> {
    Seq::new(v.len(), |i: int| v[i]@)
}

fn copy_string(s: &String) -> (r: String)
    ensures
        r@ == s@,
{
    string_from(s.as_str())
}

fn copy_diag(d: &RustcDiagnostic) -> (r: RustcDiagnostic)
    ensures
        r@ == d@,
{
    let mut notes: Vec<String> = Vec::new();
    let mut i: usize = 0;
    while i < d.notes.len()
        invariant
            i <= d.notes@.len(),
            notes@.len() == i,
            forall|k: int| 0 <= k < i ==> (#[trigger] notes@[k])@ == d.notes@[k]@,
        decreases d.notes.len() - i,
    {
        notes.push(copy_string(&d.notes[i]));
        i = i + 1;
    }
    let r = RustcDiagnostic {
        severity: d.severity,
        code: match &d.code {
            Some(c) => Some(copy_string(c)),
            None => None,
        },
        message: copy_string(&d.message),
        location: match &d.location {
            Some(l) => Some(SourceLocation { file: copy_string(&l.file), line: l.line, column: l.column }),
            None => None,
        },
        notes,
    };
    assert(crate::analysis::error_parser::string_views(r.notes@) =~= crate::analysis::error_parser::string_views(d.notes@));
    r
}

fn copy_classified(c: &Diagnostic) -> (r: Diagnostic)
    ensures
        r@ == c@,
{
    let mut points: Vec<KnowledgePoint> = Vec::new();
    let mut i: usize = 0;
    while i < c.knowledge_points.len()
        invariant
            i <= c.knowledge_points@.len(),
            points@ == c.knowledge_points@.take(i as int),
        decreases c.knowledge_points.len() - i,
    {
        points.push(c.knowledge_points[i]);
        i = i + 1;
        assert(points@ =~= c.knowledge_points@.take(i as int));
    }
    assert(c.knowledge_points@.take(c.knowledge_points@.len() as int) =~= c.knowledge_points@);
    Diagnostic { category: c.category, knowledge_points: points, confidence_percent: c.confidence_percent }
}

/// Entry `i` of a compile report pairs kept diagnostic `i` with classification `i`.
pub open spec fn entry_matches(e: CompileReportEntry, d: DiagnosticView, c: ClassifiedView, level: HintLevel) -> bool {
    &&& e.diag@ == d
    &&& e.classified@ == c
    &&& e.hint.level == level
    &&& e.hint.content@ == compile_hint_spec(d, c, level)
}

/// A report of the compile diagnostics that are not warnings, each paired in
/// order with its classification and given a hint at `level`.
pub fn build_compile_report(diags: &Vec<RustcDiagnostic>, classified: &Vec<Diagnostic>, level: HintLevel) -> (r: DiagnosticReport)
    ensures
        ({
            let kept = kept_diags(diag_views(diags@));
            let n = if kept.len() < classified@.len() {
                kept.len()
            } else {
                classified@.len()
            };
            &&& r.compile_entries@.len() == n
            &&& forall|i: int|
                0 <= i < n ==> entry_matches(#[trigger] r.compile_entries@[i], kept[i], classified@[i]@, level)
        }),
        r.test_entries@.len() == 0,
        r.test_run is None,
{
    let ghost dv = diag_views(diags@);
    let mut report = DiagnosticReport::new();
    let mut i: usize = 0;
    let mut k: usize = 0;
    while i < diags.len() && k < classified.len()
        invariant
            i <= diags@.len(),
            dv == diag_views(diags@),
            k == kept_diags(dv.take(i as int)).len(),
            k <= classified@.len(),
            report.compile_entries@.len() == k,
            report.test_entries@.len() == 0,
            report.test_run is None,
            forall|j: int|
                0 <= j < k ==> entry_matches(
                    #[trigger] report.compile_entries@[j],
                    kept_diags(dv.take(i as int))[j],
                    classified@[j]@,
                    level,
                ),
        decreases diags.len() - i,
    {
        assert(dv.take(i + 1).drop_last() =~= dv.take(i as int));
        assert(dv.take(i + 1).last() == diags@[i as int]@);
        let d = &diags[i];
        if d.severity != Severity::Warning {
            let c = &classified[k];
            let hint = generate_compile_hint(d, c, level);
            let entry = CompileReportEntry { diag: copy_diag(d), classified: copy_classified(c), hint };
            report.add_compile(entry);
            k = k + 1;
        }
        i = i + 1;
    }
    proof {
        lemma_kept_prefix(dv, i as int);
        if i == diags.len() {
            assert(dv.take(i as int) =~= dv);
        }
    }
    report
}

/// Keeping the non-warnings of a prefix gives a prefix of the kept diagnostics.
proof fn lemma_kept_prefix(ds: Seq<DiagnosticView>, i: int)
    requires
        0 <= i <= ds.len(),
    ensures
        kept_diags(ds.take(i)).len() <= kept_diags(ds).len(),
        forall|j: int|
            0 <= j < kept_diags(ds.take(i)).len() ==> #[trigger] kept_diags(ds.take(i))[j] == kept_diags(ds)[j],
    decreases ds.len() - i,
{
    if i == ds.len() {
        assert(ds.take(i) =~= ds);
    } else {
        let a = ds.take(i);
        let b = ds.take(i + 1);
        assert(b.drop_last() =~= a);
        lemma_kept_prefix(ds, i + 1);
        assert forall|j: int| 0 <= j < kept_diags(a).len() implies #[trigger] kept_diags(a)[j] == kept_diags(ds)[j] by {
            assert(kept_diags(b)[j] == kept_diags(a)[j]);
        }
    }
}

// ------------------------------------------------------------------
// Points to record feedback on
// ------------------------------------------------------------------

/// Some compile entry before `n` has point `p`.
pub open spec fn in_compile(es: Seq<CompileReportEntry>, n: int, p: KnowledgePoint) -> bool {
    exists|j: int| 0 <= j < n && (#[trigger] es[j]).classified.knowledge_points@.contains(p)
}

/// Some test entry before `n` has point `p`.
pub open spec fn in_tests(es: Seq<TestReportEntry>, n: int, p: KnowledgePoint) -> bool {
    exists|j: int| 0 <= j < n && (#[trigger] es[j]).classified.knowledge_points@.contains(p)
}

pub open spec fn report_has_point(r: DiagnosticReport, p: KnowledgePoint) -> bool {
    in_compile(r.compile_entries@, r.compile_entries@.len() as int, p) || in_tests(
        r.test_entries@,
        r.test_entries@.len() as int,
        p,
    )
}

proof fn lemma_push_contains(s: Seq<KnowledgePoint>, p: KnowledgePoint, q: KnowledgePoint)
    ensures
        s.push(p).contains(q) == (s.contains(q) || q == p),
{
    if s.push(p).contains(q) {
        let j = choose|j: int| 0 <= j < s.push(p).len() && s.push(p)[j] == q;
        if j < s.len() {
            assert(s[j] == q);
        }
    }
    if s.contains(q) {
        let j = choose|j: int| 0 <= j < s.len() && s[j] == q;
        assert(s.push(p)[j] == q);
    }
    assert(s.push(p)[s.len() as int] == p);
}

fn has_point(v: &Vec<KnowledgePoint>, p: KnowledgePoint) -> (r: bool)
    ensures
        r == v@.contains(p),
{
    let mut i: usize = 0;
    while i < v.len()
        invariant
            i <= v@.len(),
            forall|j: int| 0 <= j < i ==> v@[j] != p,
        decreases v.len() - i,
    {
        if v[i] == p {
            return true;
        }
        i = i + 1;
    }
    false
}

fn add_points(out: &mut Vec<KnowledgePoint>, points: &Vec<KnowledgePoint>)
    requires
        old(out)@.no_duplicates(),
    ensures
        final(out)@.no_duplicates(),
        forall|p: KnowledgePoint| #[trigger] final(out)@.contains(p) <==> (old(out)@.contains(p) || points@.contains(p)),
{
    let ghost start = old(out)@;
    let mut i: usize = 0;
    while i < points.len()
        invariant
            i <= points@.len(),
            out@.no_duplicates(),
            forall|p: KnowledgePoint| #[trigger] out@.contains(p) <==> (start.contains(p) || points@.take(i as int).contains(p)),
        decreases points.len() - i,
    {
        let p = points[i];
        let ghost before = out@;
        proof {
            assert(points@.take(i + 1) =~= points@.take(i as int).push(p));
        }
        let found = has_point(out, p);
        if !found {
            proof {
                assert forall|x: int, y: int|
                    0 <= x < before.len() + 1 && 0 <= y < before.len() + 1 && x != y implies before.push(p)[x]
                    != before.push(p)[y] by {
                    if x < before.len() && y < before.len() {
                        assert(before[x] != before[y]);
                    }
                }
            }
            out.push(p);
        } else {
            assert(before.contains(p));
        }
        assert forall|q: KnowledgePoint| #[trigger] out@.contains(q) <==> (start.contains(q) || points@.take(
            i + 1,
        ).contains(q)) by {
            lemma_push_contains(points@.take(i as int), p, q);
            assert(before.contains(q) == (start.contains(q) || points@.take(i as int).contains(q)));
            if !found {
                lemma_push_contains(before, p, q);
                assert(out@ == before.push(p));
            } else {
                assert(out@ == before);
            }
        }
        let ghost next = points@.take(i + 1);
        i = i + 1;
        assert(points@.take(i as int) == next);
    }
    assert(points@.take(points@.len() as int) =~= points@);
}

/// The knowledge points of every entry of a report, each once: what a user's
/// feedback is recorded against.
pub fn feedback_points(report: &DiagnosticReport) -> (r: Vec<KnowledgePoint>)
    ensures
        r@.no_duplicates(),
        forall|p: KnowledgePoint| #[trigger] r@.contains(p) <==> report_has_point(*report, p),
{
    let mut out: Vec<KnowledgePoint> = Vec::new();
    let ghost ce = report.compile_entries@;
    let ghost te = report.test_entries@;
    let mut i: usize = 0;
    while i < report.compile_entries.len()
        invariant
            i <= ce.len(),
            ce == report.compile_entries@,
            out@.no_duplicates(),
            forall|p: KnowledgePoint| #[trigger] out@.contains(p) <==> in_compile(ce, i as int, p),
        decreases report.compile_entries.len() - i,
    {
        let ghost before = out@;
        add_points(&mut out, &report.compile_entries[i].classified.knowledge_points);
        assert forall|p: KnowledgePoint| #[trigger] out@.contains(p) <==> in_compile(ce, i + 1, p) by {
            if ce[i as int].classified.knowledge_points@.contains(p) {
                assert(in_compile(ce, i + 1, p));
            }
            if in_compile(ce, i + 1, p) {
                let j = choose|j: int| 0 <= j < i + 1 && (#[trigger] ce[j]).classified.knowledge_points@.contains(p);
                if j < i {
                    assert(in_compile(ce, i as int, p));
                }
            }
            if in_compile(ce, i as int, p) {
                let j = choose|j: int| 0 <= j < i && (#[trigger] ce[j]).classified.knowledge_points@.contains(p);
                assert(in_compile(ce, i + 1, p));
            }
        }
        i = i + 1;
    }
    let mut t: usize = 0;
    while t < report.test_entries.len()
        invariant
            t <= te.len(),
            te == report.test_entries@,
            ce == report.compile_entries@,
            out@.no_duplicates(),
            forall|p: KnowledgePoint| #[trigger] out@.contains(p) <==> (in_compile(ce, ce.len() as int, p) || in_tests(te, t as int, p)),
        decreases report.test_entries.len() - t,
    {
        let ghost before = out@;
        add_points(&mut out, &report.test_entries[t].classified.knowledge_points);
        assert(report.test_entries[t as int].classified.knowledge_points@ == te[t as int].classified.knowledge_points@);
        assert forall|p: KnowledgePoint| in_tests(te, t + 1, p) <==> (in_tests(te, t as int, p)
            || te[t as int].classified.knowledge_points@.contains(p)) by {
            if te[t as int].classified.knowledge_points@.contains(p) {
                assert(in_tests(te, t + 1, p));
            }
            if in_tests(te, t + 1, p) {
                let j = choose|j: int| 0 <= j < t + 1 && (#[trigger] te[j]).classified.knowledge_points@.contains(p);
                if j < t {
                    assert(in_tests(te, t as int, p));
                }
            }
            if in_tests(te, t as int, p) {
                let j = choose|j: int| 0 <= j < t && (#[trigger] te[j]).classified.knowledge_points@.contains(p);
                assert(in_tests(te, t + 1, p));
            }
        }
        assert forall|p: KnowledgePoint| #[trigger] out@.contains(p) <==> (in_compile(ce, ce.len() as int, p)
            || in_tests(te, t + 1, p)) by {
            assert(in_tests(te, t + 1, p) <==> (in_tests(te, t as int, p)
                || te[t as int].classified.knowledge_points@.contains(p)));
            assert(before.contains(p) <==> (in_compile(ce, ce.len() as int, p) || in_tests(te, t as int, p)));
            assert(out@.contains(p) <==> (before.contains(p) || te[t as int].classified.knowledge_points@.contains(p)));
        }
        t = t + 1;
    }
    out
}

// ------------------------------------------------------------------
// Evidence in reports
// ------------------------------------------------------------------

/// `p` occurs somewhere in `s`.
pub open spec fn occurs(s: Seq<char>, p: Seq<char>) -> bool {
    exists|i: int| match_at(s, p, i)
}

proof fn lemma_occurs_within(a: Seq<char>, b: Seq<char>, c: Seq<char>, p: Seq<char>)
    requires
        occurs(b, p),
    ensures
        occurs(a + b + c, p),
{
    let i = choose|i: int| match_at(b, p, i);
    assert((a + b + c).subrange(a.len() + i, a.len() + i + p.len()) =~= b.subrange(i, i + p.len()));
    assert(match_at(a + b + c, p, a.len() + i));
}

proof fn lemma_occurs_self(p: Seq<char>)
    ensures
        occurs(p, p),
{
    assert(p.subrange(0, p.len() as int) =~= p);
    assert(match_at(p, p, 0));
}

/// `p` occurs in `a + p + c`.
proof fn lemma_occurs_between(a: Seq<char>, p: Seq<char>, c: Seq<char>)
    ensures
        occurs(a + p + c, p),
{
    lemma_occurs_self(p);
    lemma_occurs_within(a, p, c, p);
}

/// What a failed test shows as evidence in Markdown: its name and trimmed
/// expected and actual output.
pub open spec fn test_evidence_md(e: TestReportEntry, s: Seq<char>) -> bool {
    &&& occurs(s, e.result.name@)
    &&& occurs(s, trim_spec(e.result.expected_output@))
    &&& occurs(s, trim_spec(e.result.actual_output@))
}

/// What a failed test shows as evidence in terminal text: its name and its
/// expected and actual output with newlines shown as `\n`.
pub open spec fn test_evidence_text(e: TestReportEntry, s: Seq<char>) -> bool {
    &&& occurs(s, e.result.name@)
    &&& occurs(s, visible_spec(e.result.expected_output@))
    &&& occurs(s, visible_spec(e.result.actual_output@))
}

proof fn lemma_test_markdown_evidence(e: TestReportEntry)
    ensures
        test_evidence_md(e, test_markdown_spec(e)),
{
    let s = test_markdown_spec(e);
    let name = e.result.name@;
    let exp = trim_spec(e.result.expected_output@);
    let act = trim_spec(e.result.actual_output@);
    let a0 = "### "@ + test_label_spec(e.classified.category) + ": `"@;
    let tail = "- **知识点**: "@ + test_points_spec(e.classified.knowledge_points@) + "\n"@
        + markdown_hint_spec(e.hint.content@);
    let run = runtime_error_markdown(e.result.runtime_error);
    let c0 = "`\n\n"@ + "- **期望输出**: `"@ + exp + "`\n"@ + "- **实际输出**: `"@ + act + "`\n"@ + run + tail;
    assert(s =~= a0 + name + c0);
    lemma_occurs_between(a0, name, c0);
    let a1 = a0 + name + "`\n\n"@ + "- **期望输出**: `"@;
    let c1 = "`\n"@ + "- **实际输出**: `"@ + act + "`\n"@ + run + tail;
    assert(s =~= a1 + exp + c1);
    lemma_occurs_between(a1, exp, c1);
    let a2 = a1 + exp + "`\n"@ + "- **实际输出**: `"@;
    let c2 = "`\n"@ + run + tail;
    assert(s =~= a2 + act + c2);
    lemma_occurs_between(a2, act, c2);
}

#[verifier::rlimit(50)]
proof fn lemma_test_text_evidence(e: TestReportEntry)
    ensures
        test_evidence_text(e, test_text_spec(e)),
{
    let s = test_text_spec(e);
    let name = e.result.name@;
    let exp = visible_spec(e.result.expected_output@);
    let act = visible_spec(e.result.actual_output@);
    let a0 = "["@ + test_label_spec(e.classified.category) + "] "@;
    let tail = runtime_error_text(e.result.runtime_error) + "  知识点："@ + test_points_spec(
        e.classified.knowledge_points@,
    ) + "\n"@ + text_hint_spec("  提示："@, e.hint.content@);
    let c0 = "\n"@ + "  期望输出："@ + exp + "\n"@ + "  实际输出："@ + act + "\n"@ + tail;
    assert(s =~= a0 + name + c0);
    lemma_occurs_between(a0, name, c0);
    let a1 = a0 + name + "\n"@ + "  期望输出："@;
    let c1 = "\n"@ + "  实际输出："@ + act + "\n"@ + tail;
    assert(s =~= a1 + exp + c1);
    lemma_occurs_between(a1, exp, c1);
    let a2 = a1 + exp + "\n"@ + "  实际输出："@;
    let c2 = "\n"@ + tail;
    assert(s =~= a2 + act + c2);
    lemma_occurs_between(a2, act, c2);
}

proof fn lemma_compile_markdown_message(e: CompileReportEntry)
    ensures
        occurs(compile_markdown_spec(e), e.diag.message@),
{
    let a = "### "@ + category_label_spec(e.classified.category) + " `"@ + match opt_str(e.diag.code) {
        Some(c) => c,
        None => "无错误码"@,
    } + "`\n\n"@ + "- **位置**: `"@ + location_or_unknown(opt_loc(e.diag.location)) + "`\n"@
        + "- **消息**: "@;
    let c = "\n"@ + "- **知识点**: "@ + compile_points_spec(e.classified.knowledge_points@) + "\n"@
        + markdown_hint_spec(e.hint.content@);
    assert(compile_markdown_spec(e) =~= a + e.diag.message@ + c);
    lemma_occurs_between(a, e.diag.message@, c);
}

proof fn lemma_compile_text_message(e: CompileReportEntry)
    ensures
        occurs(compile_text_spec(e), e.diag.message@),
{
    let msg = e.diag.message@;
    let head = "["@ + category_label_spec(e.classified.category) + "] "@ + location_or_unknown(
        opt_loc(e.diag.location),
    );
    let a = head + match opt_str(e.diag.code) {
        Some(c) => "  "@ + c + " ("@,
        None => "  ("@,
    };
    let c = ")"@ + "\n"@ + "  知识点："@ + compile_points_spec(e.classified.knowledge_points@) + "\n"@
        + text_hint_spec("  提示："@, e.hint.content@);
    assert(compile_text_spec(e) =~= a + msg + c);
    lemma_occurs_between(a, msg, c);
}

proof fn lemma_test_markdowns(es: Seq<TestReportEntry>, k: int)
    requires
        0 <= k < es.len(),
    ensures
        test_evidence_md(es[k], test_markdowns(es)),
    decreases es.len(),
{
    let init = es.drop_last();
    let s = test_markdowns(es);
    if k == es.len() - 1 {
        lemma_test_markdown_evidence(es[k]);
        let t = test_markdown_spec(es[k]);
        let e = es[k];
        assert(s =~= test_markdowns(init) + t + "\n"@);
        assert forall|p: Seq<char>| occurs(t, p) implies occurs(s, p) by {
            lemma_occurs_within(test_markdowns(init), t, "\n"@, p);
        }
        assert(occurs(t, e.result.name@));
    } else {
        lemma_test_markdowns(init, k);
        assert(init[k] == es[k]);
        let t = test_markdowns(init);
        assert(s =~= Seq::<char>::empty() + t + (test_markdown_spec(es.last()) + "\n"@));
        assert forall|p: Seq<char>| occurs(t, p) implies occurs(s, p) by {
            lemma_occurs_within(Seq::<char>::empty(), t, test_markdown_spec(es.last()) + "\n"@, p);
        }
    }
}

proof fn lemma_test_texts(es: Seq<TestReportEntry>, k: int)
    requires
        0 <= k < es.len(),
    ensures
        test_evidence_text(es[k], test_texts(es, Seq::empty())),
    decreases es.len(),
{
    let init = es.drop_last();
    let none = Seq::<usize>::empty();
    let s = test_texts(es, none);
    assert(!none.contains((es.len() - 1) as usize));
    if k == es.len() - 1 {
        lemma_test_text_evidence(es[k]);
        let t = test_text_spec(es[k]);
        assert(s =~= test_texts(init, none) + t + "\n"@);
        assert forall|p: Seq<char>| occurs(t, p) implies occurs(s, p) by {
            lemma_occurs_within(test_texts(init, none), t, "\n"@, p);
        }
    } else {
        lemma_test_texts(init, k);
        assert(init[k] == es[k]);
        let t = test_texts(init, none);
        assert(s =~= Seq::<char>::empty() + t + (test_text_spec(es.last()) + "\n"@));
        assert forall|p: Seq<char>| occurs(t, p) implies occurs(s, p) by {
            lemma_occurs_within(Seq::<char>::empty(), t, test_text_spec(es.last()) + "\n"@, p);
        }
    }
}

proof fn lemma_compile_markdowns(es: Seq<CompileReportEntry>, k: int)
    requires
        0 <= k < es.len(),
    ensures
        occurs(compile_markdowns(es), es[k].diag.message@),
    decreases es.len(),
{
    let init = es.drop_last();
    if k == es.len() - 1 {
        lemma_compile_markdown_message(es[k]);
        lemma_occurs_within(compile_markdowns(init), compile_markdown_spec(es[k]), "\n"@, es[k].diag.message@);
    } else {
        lemma_compile_markdowns(init, k);
        assert(init[k] == es[k]);
        assert(compile_markdowns(es) =~= Seq::<char>::empty() + compile_markdowns(init) + (
        compile_markdown_spec(es.last()) + "\n"@));
        lemma_occurs_within(
            Seq::<char>::empty(),
            compile_markdowns(init),
            compile_markdown_spec(es.last()) + "\n"@,
            es[k].diag.message@,
        );
    }
}

proof fn lemma_compile_texts(es: Seq<CompileReportEntry>, k: int)
    requires
        0 <= k < es.len(),
    ensures
        occurs(compile_texts(es, Seq::empty()), es[k].diag.message@),
    decreases es.len(),
{
    let init = es.drop_last();
    let none = Seq::<usize>::empty();
    assert(!none.contains((es.len() - 1) as usize));
    if k == es.len() - 1 {
        lemma_compile_text_message(es[k]);
        assert(compile_texts(es, none) =~= compile_texts(init, none) + compile_text_spec(es[k]) + "\n"@);
        lemma_occurs_within(compile_texts(init, none), compile_text_spec(es[k]), "\n"@, es[k].diag.message@);
    } else {
        lemma_compile_texts(init, k);
        assert(init[k] == es[k]);
        assert(compile_texts(es, none) =~= Seq::<char>::empty() + compile_texts(init, none) + (
        compile_text_spec(es.last()) + "\n"@));
        lemma_occurs_within(
            Seq::<char>::empty(),
            compile_texts(init, none),
            compile_text_spec(es.last()) + "\n"@,
            es[k].diag.message@,
        );
    }
}

/// Evidence comes first: the whole report, as terminal text and as
/// Markdown, shows the message of every compile diagnostic, and the name,
/// expected output and actual output of every failed test.
pub proof fn law_reports_keep_evidence(r: DiagnosticReport)
    ensures
        forall|k: int|
            0 <= k < r.compile_entries@.len() ==> occurs(
                text_excluding_spec(r, Seq::empty(), Seq::empty()),
                #[trigger] r.compile_entries@[k].diag.message@,
            ) && occurs(markdown_spec(r), r.compile_entries@[k].diag.message@),
        forall|k: int|
            0 <= k < r.test_entries@.len() ==> test_evidence_text(
                #[trigger] r.test_entries@[k],
                text_excluding_spec(r, Seq::empty(), Seq::empty()),
            ) && test_evidence_md(r.test_entries@[k], markdown_spec(r)),
{
    let none = Seq::<usize>::empty();
    let ct = compile_texts(r.compile_entries@, none);
    let tt = test_texts(r.test_entries@, none);
    let tail = if report_empty(r) {
        summary_text(r.test_run)
    } else {
        Seq::empty()
    };
    let text = text_excluding_spec(r, none, none);
    assert(text == ct + tt + tail);
    assert forall|k: int| 0 <= k < r.compile_entries@.len() implies occurs(
        text,
        #[trigger] r.compile_entries@[k].diag.message@,
    ) && occurs(markdown_spec(r), r.compile_entries@[k].diag.message@) by {
        let m = r.compile_entries@[k].diag.message@;
        lemma_compile_texts(r.compile_entries@, k);
        assert(text =~= Seq::<char>::empty() + ct + (tt + tail));
        lemma_occurs_within(Seq::<char>::empty(), ct, tt + tail, m);
        lemma_compile_markdowns(r.compile_entries@, k);
        let tm = if r.test_entries@.len() > 0 {
            "## 测试失败\n\n"@ + test_markdowns(r.test_entries@)
        } else {
            Seq::empty()
        };
        assert(markdown_spec(r) =~= ("# 诊断报告\n\n"@ + "## 编译诊断\n\n"@) + compile_markdowns(
            r.compile_entries@,
        ) + tm);
        lemma_occurs_within("# 诊断报告\n\n"@ + "## 编译诊断\n\n"@, compile_markdowns(r.compile_entries@), tm, m);
    }
    assert forall|k: int| 0 <= k < r.test_entries@.len() implies test_evidence_text(
        #[trigger] r.test_entries@[k],
        text,
    ) && test_evidence_md(r.test_entries@[k], markdown_spec(r)) by {
        let e = r.test_entries@[k];
        lemma_test_texts(r.test_entries@, k);
        assert forall|p: Seq<char>| occurs(tt, p) implies occurs(text, p) by {
            lemma_occurs_within(ct, tt, tail, p);
        }
        lemma_test_markdowns(r.test_entries@, k);
        let cm = if r.compile_entries@.len() > 0 {
            "## 编译诊断\n\n"@ + compile_markdowns(r.compile_entries@)
        } else {
            Seq::empty()
        };
        let md = markdown_spec(r);
        assert(md =~= ("# 诊断报告\n\n"@ + cm + "## 测试失败\n\n"@) + test_markdowns(r.test_entries@)
            + Seq::<char>::empty());
        assert forall|p: Seq<char>| occurs(test_markdowns(r.test_entries@), p) implies occurs(md, p) by {
            lemma_occurs_within(
                "# 诊断报告\n\n"@ + cm + "## 测试失败\n\n"@,
                test_markdowns(r.test_entries@),
                Seq::<char>::empty(),
                p,
            );
        }
    }
}

} // verus!
