use pada::agent::context::{limit_source, relevant_source, source_file_count};
use pada::agent::interaction::{help_text, hint_number, parse_command, reset_hint_for_new_tests, InteractiveCommand};
use pada::agent::llm::{hint_level_instruction, reasoning_request, sort_points_by_text, ChatMessage, ReasoningRequest};
use pada::agent::model_task::{is_cancel_command, stops_model_task};
use pada::agent::progress::{parse_step_choice, CancelToken, StepChoice, StepController};
use pada::analysis::error_parser::SourceLocation;
use pada::config::effort::{EffortMode, ModelTaskKind, SourceScope};
use pada::config::model::ModelConfig;
use pada::models::{HintLevel, KnowledgePoint};

#[test]
fn commands_are_parsed() {
    assert_eq!(parse_command("next"), InteractiveCommand::Next);
    assert_eq!(parse_command("  hint 3 "), InteractiveCommand::Hint(Some(3)));
    assert_eq!(parse_command("hint x"), InteractiveCommand::Hint(None));
    assert_eq!(parse_command("\\save out.json"), InteractiveCommand::Save(Some("out.json".into())));
    assert_eq!(parse_command("懂了"), InteractiveCommand::Feedback(true));
    assert_eq!(parse_command("notyet"), InteractiveCommand::Feedback(false));
    assert_eq!(parse_command("quit"), InteractiveCommand::Exit);
    assert_eq!(parse_command("dance"), InteractiveCommand::Unknown("dance".into()));
    assert_eq!(parse_command(""), InteractiveCommand::Unknown("".into()));
}

#[test]
fn new_tests_start_at_level_one() {
    let mut level = HintLevel::Solution;
    reset_hint_for_new_tests(&mut level);
    assert_eq!(level, HintLevel::Category);
    assert_eq!(hint_number(HintLevel::Concept), 3);
    assert!(help_text().starts_with("命令: next"));
}

#[test]
fn step_choices() {
    assert_eq!(parse_step_choice("\n"), StepChoice::Continue);
    assert_eq!(parse_step_choice(" A "), StepChoice::RunRemaining);
    assert_eq!(parse_step_choice("cancel"), StepChoice::Cancel);
    assert_eq!(parse_step_choice("?"), StepChoice::Help);
    assert_eq!(parse_step_choice("z"), StepChoice::Invalid);
}

#[test]
fn steps_are_counted_within_a_round() {
    let mut c = StepController::new(true, true);
    assert!(c.is_active());
    c.begin_round(3);
    assert_eq!(c.next_position(), (1, 3));
    assert!(c.should_prompt());
    c.run_remaining();
    assert!(!c.should_prompt());
    assert_eq!(c.next_position(), (2, 3));
    let d = StepController::new(true, false);
    assert!(!d.is_active());
    assert!(d.requested_without_terminal());
}

#[test]
fn step_positions_stop_at_the_round_length() {
    let mut c = StepController::new(true, true);
    c.begin_round(2);
    assert_eq!(c.next_position(), (1, 2));
    assert_eq!(c.next_position(), (2, 2));
    assert_eq!(c.next_position(), (2, 2));
    c.begin_round(3);
    assert_eq!(c.next_position(), (1, 3));
}

#[test]
fn cancellation_is_shared() {
    let token = CancelToken::new();
    let other = token.clone();
    assert!(!token.is_cancelled());
    other.cancel();
    assert!(token.is_cancelled());
}

#[test]
fn cancel_words() {
    assert!(is_cancel_command(" Q\n"));
    assert!(is_cancel_command("取消"));
    assert!(!is_cancel_command("quit"));
    assert!(stops_model_task("quit"));
    assert!(stops_model_task("exit\n"));
    assert!(!stops_model_task("EXIT"));
}

#[test]
fn sources_are_limited_and_counted() {
    let scope = SourceScope { max_files: 1, context_lines: 3, max_bytes: 1000 };
    assert_eq!(source_file_count("fn main() {}"), 1);
    let project = "// file: a.rs\nfn a() {}\n// file: b.rs\nfn b() {}\n";
    assert_eq!(source_file_count(project), 2);
    let limited = limit_source(project, scope);
    assert!(limited.contains("a.rs"));
    assert!(!limited.contains("fn b()"));
}

#[test]
fn relevant_source_is_a_numbered_window() {
    let source = "l1\nl2\nl3\nl4\nl5\nl6\nl7\nl8\nl9\nl10\n";
    let loc = SourceLocation { file: "main.rs".into(), line: 5, column: 1 };
    let text = relevant_source(source, Some(&loc));
    assert!(text.starts_with("// main.rs (相关源码片段)\n"));
    assert!(text.contains("5: l5"));
}

#[test]
fn messages_and_instructions() {
    let m = ChatMessage::user("hi".into());
    assert_eq!(m.role, "user");
    assert!(hint_level_instruction(HintLevel::Solution).starts_with("当前是 Level 5"));
    let sorted = sort_points_by_text(&vec![KnowledgePoint::Trait, KnowledgePoint::Option, KnowledgePoint::Trait]);
    assert_eq!(sorted.len(), 2);
}

#[test]
fn reasoning_fields_follow_the_protocol() {
    let mut local = ModelConfig::local("qwen2.5-coder".into(), 8192);
    match reasoning_request(&local, "medium", EffortMode::High, ModelTaskKind::General) {
        ReasoningRequest::Ollama(e) => assert_eq!(e, "none"),
        _ => panic!("expected ollama"),
    }
    local.reasoning = true;
    match reasoning_request(&local, "medium", EffortMode::High, ModelTaskKind::KnowledgeMapping) {
        ReasoningRequest::Ollama(e) => assert_eq!(e, "low"),
        _ => panic!("expected ollama"),
    }
    match reasoning_request(&local, "medium", EffortMode::Auto, ModelTaskKind::General) {
        ReasoningRequest::Ollama(e) => assert_eq!(e, "medium"),
        _ => panic!("expected ollama"),
    }
    let mut deep = local.clone();
    deep.endpoint = "https://api.deepseek.com/v1/chat/completions".into();
    match reasoning_request(&deep, "high", EffortMode::Max, ModelTaskKind::General) {
        ReasoningRequest::Deepseek { enabled, effort } => {
            assert!(enabled);
            assert_eq!(effort.as_deref(), Some("max"));
        }
        _ => panic!("expected deepseek"),
    }
    let mut other = local.clone();
    other.endpoint = "http://example.com/v1/chat/completions".into();
    match reasoning_request(&other, "high", EffortMode::High, ModelTaskKind::General) {
        ReasoningRequest::Compatible(e) => assert_eq!(e, "high"),
        _ => panic!("expected compatible"),
    }
}

#[test]
fn backslash_before_a_command_is_optional() {
    for line in [
        "next", "hint 4", "recheck", "show", "usage", "progress", "process", "understood", "懂了", "notyet", "还不会",
        "config", "effort high", "test t.json", "tests t.json", "case", "save s.json", "help", "?", "exit", "quit",
    ] {
        assert_eq!(parse_command(&format!("\\{line}")), parse_command(line), "{line}");
    }
    assert_eq!(parse_command("\\quit"), InteractiveCommand::Exit);
    assert_eq!(parse_command("\\understood"), InteractiveCommand::Feedback(true));
    assert_eq!(parse_command("\\notyet"), InteractiveCommand::Feedback(false));
    assert_eq!(parse_command("\\dance"), InteractiveCommand::Unknown("\\dance".into()));
}
