use pada::analysis::error_parser::{RustcDiagnostic, Severity, SourceLocation};
use pada::analysis::hint::Hint;
use pada::models::{Diagnostic, ErrorCategory, HintLevel, KnowledgePoint, TestResult};
use pada::report::{
    build_compile_report, colorize_line, feedback_points, format_test_run, push_markdown_hint,
    push_text_hint, terminal_style, visible_output, CompileReportEntry, DiagnosticReport,
    TestReportEntry,
};

fn diag(severity: Severity, code: Option<&str>, message: &str) -> RustcDiagnostic {
    RustcDiagnostic {
        severity,
        code: code.map(str::to_owned),
        message: message.into(),
        location: Some(SourceLocation { file: "main.rs".into(), line: 7, column: 5 }),
        notes: vec![],
    }
}

fn classified(category: ErrorCategory, points: Vec<KnowledgePoint>) -> Diagnostic {
    Diagnostic { category, knowledge_points: points, confidence_percent: 90 }
}

fn result(name: &str, passed: bool, actual: &str, expected: &str) -> TestResult {
    TestResult { name: name.into(), passed, actual_output: actual.into(), expected_output: expected.into(), runtime_error: None }
}

#[test]
fn outputs_are_shown_on_one_line() {
    assert_eq!(visible_output("  \n "), "<空输出>");
    assert_eq!(visible_output(" 1\n2 \n"), "1\\n2");
}

#[test]
fn styles_and_colours() {
    assert_eq!(terminal_style("x", "1;32", true), "\x1b[1;32mx\x1b[0m");
    assert_eq!(terminal_style("x", "1;32", false), "x");
    assert_eq!(colorize_line("[编译错误] a"), "\x1b[31;1m[编译错误] a\x1b[0m");
    assert_eq!(colorize_line("  知识点：x"), "\x1b[33m  知识点：x\x1b[0m");
    assert_eq!(colorize_line("  提示：y"), "\x1b[34;1m  提示：y\x1b[0m");
    assert_eq!(colorize_line("✓ ok"), "\x1b[32;1m✓ ok\x1b[0m");
    assert_eq!(colorize_line("plain"), "plain");
}

#[test]
fn hints_are_laid_out() {
    let mut out = String::new();
    push_text_hint(&mut out, "  提示：", "one line");
    assert_eq!(out, "  提示：one line\n");
    let mut out = String::new();
    push_text_hint(&mut out, "  提示：", "a\nb");
    assert_eq!(out, "  提示：\n    a\n    b\n");
    let mut out = String::new();
    push_markdown_hint(&mut out, "short");
    assert_eq!(out, "- **提示**: short\n\n");
    let mut out = String::new();
    push_markdown_hint(&mut out, " a\nb ");
    assert_eq!(out, "- **提示**:\n\na\nb\n\n");
}

#[test]
fn test_runs_are_boxed_and_counted() {
    let text = format_test_run(&vec![result("t1", true, "1", "1"), result("t2", false, "1 2 3", "3 2 1")], false);
    assert_eq!(
        text,
        "\n┌─ 测试结果  1/2 通过 ─────────────────────\n│ ✓ t1\n│ ✗ t2\n│   期望：3 2 1\n│   实际：1 2 3\n└────────────────────────────────────────────\n"
    );
}

#[test]
fn an_empty_report_says_so() {
    let mut r = DiagnosticReport::new();
    assert!(r.is_empty());
    assert_eq!(r.to_text(), "✓ 编译通过；本轮没有执行测试。\n");
    r.set_test_run(3, 3);
    assert_eq!(r.to_text(), "✓ 未发现问题：编译通过，测试 3/3 通过。\n");
    assert_eq!(r.to_markdown(), "# 诊断报告\n\n✅ 未发现问题：编译通过，测试 3/3 通过。\n");
}

#[test]
fn entries_are_formatted() {
    let mut r = DiagnosticReport::new();
    r.add_compile(CompileReportEntry {
        diag: diag(Severity::Error, Some("E0382"), "borrow of moved value"),
        classified: classified(ErrorCategory::CompileError, vec![KnowledgePoint::Ownership]),
        hint: Hint::new(HintLevel::Category, "这是一个编译错误".into()),
    });
    r.add_test(TestReportEntry {
        result: result("case_03", false, "1 2 3", "3 2 1"),
        classified: classified(ErrorCategory::LogicError, vec![]),
        hint: Hint::new(HintLevel::Category, "这是一个逻辑错误".into()),
    });
    assert_eq!(
        r.to_text(),
        "[编译错误] main.rs:7:5  E0382 (borrow of moved value)\n  知识点：所有权 / Move\n  提示：这是一个编译错误\n\n[测试失败] case_03\n  期望输出：3 2 1\n  实际输出：1 2 3\n  知识点：待分析（配置 LLM 后自动映射）\n  提示：这是一个逻辑错误\n\n"
    );
    assert_eq!(
        r.to_text_excluding(&vec![0], &vec![]),
        "[测试失败] case_03\n  期望输出：3 2 1\n  实际输出：1 2 3\n  知识点：待分析（配置 LLM 后自动映射）\n  提示：这是一个逻辑错误\n\n"
    );
    let md = r.to_markdown();
    assert!(md.starts_with("# 诊断报告\n\n## 编译诊断\n\n### 编译错误 `E0382`\n\n- **位置**: `main.rs:7:5`\n"));
    assert!(md.contains("## 测试失败\n\n### 测试失败: `case_03`\n\n- **期望输出**: `3 2 1`\n"));
    assert_eq!(r.compile_stream_prefix(0, false), "[编译错误] main.rs:7:5  E0382 (borrow of moved value)\n  知识点：所有权 / Move\n  提示：\n");
    assert!(r.to_colored_text().starts_with("\x1b[31;1m[编译错误]"));
}

#[test]
fn compile_reports_skip_warnings() {
    let diags = vec![
        diag(Severity::Warning, None, "unused variable"),
        diag(Severity::Error, Some("E0308"), "mismatched types"),
    ];
    let classes = vec![classified(ErrorCategory::CompileError, vec![KnowledgePoint::TypeSystem])];
    let r = build_compile_report(&diags, &classes, HintLevel::Category);
    assert_eq!(r.compile_entries.len(), 1);
    assert_eq!(r.compile_entries[0].diag.message, "mismatched types");
    assert_eq!(r.compile_entries[0].hint.level, HintLevel::Category);
}

#[test]
fn feedback_covers_every_point_once() {
    let mut r = DiagnosticReport::new();
    for points in [vec![KnowledgePoint::Ownership, KnowledgePoint::Borrowing], vec![KnowledgePoint::Ownership]] {
        r.add_compile(CompileReportEntry {
            diag: diag(Severity::Error, None, "m"),
            classified: classified(ErrorCategory::CompileError, points),
            hint: Hint::new(HintLevel::Category, String::new()),
        });
    }
    let points = feedback_points(&r);
    assert_eq!(points.len(), 2);
    assert!(points.contains(&KnowledgePoint::Ownership));
    assert!(points.contains(&KnowledgePoint::Borrowing));
}

#[test]
fn reports_keep_the_evidence() {
    let mut r = DiagnosticReport::new();
    r.add_compile(CompileReportEntry {
        diag: diag(Severity::Error, None, "cannot find value `x` in this scope"),
        classified: classified(ErrorCategory::CompileError, vec![KnowledgePoint::NameResolution]),
        hint: Hint::new(HintLevel::Location, "看看 x 在哪里定义".into()),
    });
    r.add_test(TestReportEntry {
        result: result("multi_line", false, "1\n2\n", "  1\n3 "),
        classified: classified(ErrorCategory::LogicError, vec![]),
        hint: Hint::new(HintLevel::Category, "输出不一致".into()),
    });
    let text = r.to_text();
    let md = r.to_markdown();
    for s in [&text, &md] {
        assert!(s.contains("cannot find value `x` in this scope"));
        assert!(s.contains("multi_line"));
    }
    assert!(text.contains("期望输出：1\\n3\n") && text.contains("实际输出：1\\n2\n"));
    assert!(md.contains("`1\n3`") && md.contains("`1\n2`"));
}
