use pada::analysis::classifier::{classify_compile_diagnostic, classify_compile_diagnostics, classify_test_result, code_to_knowledge_point};
use pada::analysis::error_parser::{parse_diagnostics, parse_header, parse_location, parse_note, RustcDiagnostic, Severity, SourceLocation};
use pada::analysis::hint::{
    code_to_direction, error_category_text, format_location, generate_compile_hint, hint_level_as_number,
    hint_level_from_number, knowledge_point_text, next_hint_level,
};
use pada::models::{ErrorCategory, HintLevel, KnowledgePoint, TestResult};

const OUTPUT: &str = "warning: unused variable: `x`\n --> src/main.rs:2:9\n  |\n  = note: `#[warn(unused_variables)]` on by default\n\nerror[E0382]: borrow of moved value: `s`\n --> src/main.rs:5:20\n  |\n  = note: move occurs because `s` has type `String`\nhelp: consider cloning the value\n\nerror: aborting due to 1 previous error\n";

#[test]
fn headers_are_read() {
    assert_eq!(parse_header("error[E0382]: borrow of moved value"), Some((Severity::Error, Some("E0382".to_string()), "borrow of moved value".to_string())));
    assert_eq!(parse_header("warning: unused variable"), Some((Severity::Warning, None, "unused variable".to_string())));
    assert_eq!(parse_header("error[X1]: bad code"), None);
    assert_eq!(parse_header("note: something"), None);
}

#[test]
fn locations_and_notes_are_read() {
    assert_eq!(parse_location("  --> src/main.rs:6:20"), Some(SourceLocation { file: "src/main.rs".into(), line: 6, column: 20 }));
    assert_eq!(parse_location("--> main.rs:x:1"), None);
    assert_eq!(parse_note("  = note: value moved here"), Some("value moved here".to_string()));
    assert_eq!(parse_note("help: try this"), Some("try this".to_string()));
    assert_eq!(parse_note("plain"), None);
}

#[test]
fn whole_outputs_are_parsed() {
    let diags = parse_diagnostics(OUTPUT);
    assert_eq!(diags.len(), 2);
    assert_eq!(diags[0].severity, Severity::Warning);
    assert_eq!(diags[1].code.as_deref(), Some("E0382"));
    assert_eq!(diags[1].location, Some(SourceLocation { file: "src/main.rs".into(), line: 5, column: 20 }));
    assert_eq!(diags[1].notes, vec!["move occurs because `s` has type `String`".to_string(), "consider cloning the value".to_string()]);
    assert!(parse_diagnostics("").is_empty());
}

#[test]
fn codes_map_to_points() {
    assert_eq!(code_to_knowledge_point("E0382"), Some(KnowledgePoint::Ownership));
    assert_eq!(code_to_knowledge_point("E0499"), Some(KnowledgePoint::Borrowing));
    assert_eq!(code_to_knowledge_point("E0308"), Some(KnowledgePoint::TypeSystem));
    assert_eq!(code_to_knowledge_point("E9999"), None);
    let diags = parse_diagnostics(OUTPUT);
    let c = classify_compile_diagnostic(&diags[1]);
    assert_eq!(c.category, ErrorCategory::CompileError);
    assert_eq!(c.knowledge_points, vec![KnowledgePoint::Ownership]);
    assert_eq!(classify_compile_diagnostics(&diags).len(), 1);
}

#[test]
fn test_results_are_classified() {
    let r = TestResult { name: "t".into(), passed: false, actual_output: "".into(), expected_output: "1".into(), runtime_error: Some("panic".into()) };
    let c = classify_test_result(&r);
    assert_eq!(c.category, ErrorCategory::RuntimeError);
    assert_eq!(c.knowledge_points, vec![KnowledgePoint::ErrorHandling]);
    let ok = TestResult { runtime_error: None, ..r };
    assert_eq!(classify_test_result(&ok).category, ErrorCategory::LogicError);
}

#[test]
fn hint_levels_step_and_round_trip() {
    assert_eq!(next_hint_level(HintLevel::Category), Some(HintLevel::Location));
    assert_eq!(next_hint_level(HintLevel::Solution), None);
    for n in 1..=5u8 {
        assert_eq!(hint_level_as_number(hint_level_from_number(n).unwrap()), n);
    }
    assert_eq!(hint_level_from_number(0), None);
    assert_eq!(hint_level_from_number(6), None);
}

#[test]
fn texts_and_locations() {
    assert_eq!(knowledge_point_text(KnowledgePoint::Ownership), "所有权 / Move");
    assert_eq!(format_location(&SourceLocation { file: "a.rs".into(), line: 3, column: 4 }), "a.rs:3:4");
    assert!(!error_category_text(ErrorCategory::CompileError).is_empty());
    assert!(code_to_direction("E0382").is_some());
}

#[test]
fn compile_hints_by_level() {
    let diags = parse_diagnostics(OUTPUT);
    let c = classify_compile_diagnostic(&diags[1]);
    let h = generate_compile_hint(&diags[1], &c, HintLevel::Location);
    assert_eq!(h.level, HintLevel::Location);
    assert_eq!(h.content, "位置：src/main.rs:5:20");
}

#[test]
fn a_diagnostic_without_a_code_maps_to_no_point() {
    let diag = RustcDiagnostic {
        severity: Severity::Error,
        code: None,
        message: "mismatched types".into(),
        location: Some(SourceLocation { file: "src/main.rs".into(), line: 3, column: 5 }),
        notes: vec![],
    };
    let c = classify_compile_diagnostic(&diag);
    assert_eq!(c.category, ErrorCategory::CompileError);
    assert!(c.knowledge_points.is_empty());
    assert_eq!(c.confidence_percent, 30);
}

#[test]
fn the_main_location_is_the_first_after_the_header() {
    let stderr = "error[E0382]: use of moved value: `v`\n --> src/main.rs:4:20\nnote: consider changing this parameter type to borrow instead\n --> src/main.rs:1:12\n";
    let r = parse_diagnostics(stderr);
    assert_eq!(r.len(), 1);
    assert_eq!(r[0].location, Some(SourceLocation { file: "src/main.rs".into(), line: 4, column: 20 }));
}
