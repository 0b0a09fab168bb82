use pada::agent::test_analysis::{apply_mapping, fallback_diagnostics, mapping_messages, mapping_parse_error, parse_knowledge_point, MappingItem};
use pada::error::PadaError;
use pada::models::{Assignment, ErrorCategory, KnowledgePoint, TestResult};

fn failure(name: &str, runtime_error: Option<&str>) -> TestResult {
    TestResult {
        name: name.into(),
        passed: false,
        actual_output: "1 2 3".into(),
        expected_output: "3 2 1".into(),
        runtime_error: runtime_error.map(str::to_owned),
    }
}

#[test]
fn labels_are_read_in_both_languages() {
    assert_eq!(parse_knowledge_point(" 迭代器 "), Some(KnowledgePoint::Iterator));
    assert_eq!(parse_knowledge_point("模块"), Some(KnowledgePoint::NameResolution));
    assert_eq!(parse_knowledge_point("Pattern Matching"), Some(KnowledgePoint::PatternMatching));
    assert_eq!(parse_knowledge_point("ERROR_HANDLING"), Some(KnowledgePoint::ErrorHandling));
    assert_eq!(parse_knowledge_point("generics"), Some(KnowledgePoint::Generic));
    assert_eq!(parse_knowledge_point("closures"), None);
}

#[test]
fn mappings_add_points_and_raise_confidence() {
    let failures = vec![failure("reverse", None), failure("crash", Some("panicked"))];
    let items = vec![
        MappingItem { index: 0, knowledge_points: vec!["Iterator".into(), "iterator".into(), "Collection".into(), "Option".into(), "Result".into()] },
        MappingItem { index: 7, knowledge_points: vec!["Ownership".into()] },
        MappingItem { index: 1, knowledge_points: vec!["unknown".into()] },
    ];
    let base = fallback_diagnostics(&failures);
    let mapped = apply_mapping(&failures, &items);
    assert_eq!(mapped.len(), 2);
    assert_eq!(mapped[1], base[1]);
    assert_eq!(mapped[0].category, base[0].category);
    assert!(mapped[0].confidence_percent >= 70);
    assert!(mapped[0].knowledge_points.len() <= 3);
    assert!(mapped[0].knowledge_points.contains(&KnowledgePoint::Iterator));
    assert_eq!(base[1].category, ErrorCategory::RuntimeError);
}

#[test]
fn the_mapping_prompt_lists_the_failures() {
    let a = Assignment { title: "逆序输出整数".into(), description: "读入并逆序输出".into() };
    let msgs = mapping_messages(&a, "fn main() {}", &vec![failure("reverse", None)]);
    assert_eq!(msgs.len(), 2);
    assert_eq!(msgs[0].role, "system");
    assert_eq!(msgs[1].role, "user");
    assert!(msgs[1].content.starts_with("题目：逆序输出整数\n读入并逆序输出\n\nRust 提交：\n```rust\nfn main() {}\n```"));
    assert!(msgs[1].content.ends_with("[0] reverse\n期望: \"3 2 1\"\n实际: \"1 2 3\"\n运行错误: 无"));
}

#[test]
fn an_unparsable_reply_is_a_parse_error() {
    let long = "x".repeat(400);
    match mapping_parse_error(&format!("  {long}  ")) {
        PadaError::Parse(m) => {
            assert!(m.starts_with("解析模型知识点映射失败：未找到有效的 JSON 映射；模型输出: "));
            assert!(m.ends_with(&"x".repeat(300)));
            assert!(!m.ends_with(&"x".repeat(301)));
        }
        other => panic!("unexpected {other:?}"),
    }
}
