use pada::error::PadaError;
use pada::history::{AgentDecision, ToolCall};
use pada::memory::{compile_evidence_key, now_timestamp, test_evidence_key, MasteryEvent};
use pada::models::KnowledgePoint;
use pada::path::{file_name_exec, join_path};
use pada::storage::{safe_file_name, select_session, session_places, DataStore, MAX_AUTO_SESSIONS};

#[test]
fn errors_have_messages() {
    assert_eq!(PadaError::Parse("x".into()).message(), "解析错误: x");
    assert_eq!(PadaError::FileNotFound("a.rs".into()).message(), "文件未找到: a.rs");
    assert_eq!(PadaError::Cancelled.message(), "操作已取消");
}

#[test]
fn paths_join_like_std() {
    assert_eq!(join_path("/data", "reports"), "/data/reports");
    assert_eq!(join_path("/data/", "reports"), "/data/reports");
    assert_eq!(join_path("", "reports"), "reports");
    assert_eq!(join_path("/data", "/etc"), "/etc");
    assert_eq!(file_name_exec("a/b/c.json"), Some("c.json".to_string()));
    assert_eq!(file_name_exec("a/b/"), Some("b".to_string()));
    assert_eq!(file_name_exec("a/.."), None);
    assert_eq!(file_name_exec("/"), None);
}

#[test]
fn the_store_keeps_files_inside() {
    let store = DataStore::new("/home/u/.pada".into());
    assert_eq!(store.root(), "/home/u/.pada");
    assert_eq!(store.reports_dir(), "/home/u/.pada/reports");
    assert_eq!(store.auto_sessions_dir(), "/home/u/.pada/sessions/auto");
    assert_eq!(store.exported_sessions_dir(), "/home/u/.pada/sessions/exported");
    assert_eq!(store.learning_profile_path(), "/home/u/.pada/learning/profile.json");
    assert_eq!(store.report_path("../../etc/passwd"), "/home/u/.pada/reports/passwd");
    assert_eq!(store.report_path(".."), "/home/u/.pada/reports/report.md");
    assert_eq!(store.exported_session_path("out/s.json"), "/home/u/.pada/sessions/exported/s.json");
    assert_eq!(store.auto_session_path("session_1"), "/home/u/.pada/sessions/auto/session_1.json");
    assert_eq!(safe_file_name("", "x.md"), "x.md");
}

#[test]
fn records_keep_what_they_are_given() {
    let before = now_timestamp();
    let call = ToolCall::new("compile_file".into(), "main.rs".into(), "ok".into());
    assert_eq!(call.tool, "compile_file");
    assert!(call.timestamp >= before);
    let d = AgentDecision::new("reading_input".into(), "读取题目".into());
    assert_eq!(d.stage, "reading_input");
    assert_eq!(MasteryEvent::Diagnostic { passed: true, timestamp: 9 }.timestamp(), 9);
    assert_eq!(MasteryEvent::UserFeedback { understood: false, timestamp: 4 }.timestamp(), 4);
}

#[test]
fn saved_files_stay_in_their_directory() {
    let store = DataStore::new("/d".into());
    assert_eq!(store.report_path("../../etc/passwd"), "/d/reports/passwd");
    assert_eq!(store.report_path("/tmp/"), "/d/reports/tmp");
    assert_eq!(store.report_path(".."), "/d/reports/report.md");
    assert_eq!(store.exported_session_path("a/b/s.json"), "/d/sessions/exported/s.json");
    assert_eq!(store.exported_session_path("."), "/d/sessions/exported/session.json");
}

#[test]
fn recent_sessions_come_first() {
    let keys = vec![
        (10u64, "session_a".to_string()),
        (30, "session_b".to_string()),
        (10, "session_c".to_string()),
        (30, "session_b".to_string()),
        (20, "session_d".to_string()),
    ];
    assert_eq!(session_places(&keys), vec![4, 0, 3, 1, 2]);
    assert!(session_places(&Vec::new()).is_empty());
}

#[test]
fn a_session_is_chosen_by_place_or_id() {
    let ids = vec!["session_9".to_string(), "2".to_string(), "session_7".to_string()];
    assert_eq!(select_session(&ids, "1"), Some(0));
    assert_eq!(select_session(&ids, "3"), Some(2));
    assert_eq!(select_session(&ids, "+2"), Some(1));
    assert_eq!(select_session(&ids, "session_7"), Some(2));
    assert_eq!(select_session(&ids, "0"), None);
    assert_eq!(select_session(&ids, "4"), None);
    assert_eq!(select_session(&ids, "nope"), None);
}

#[test]
fn points_are_stored_by_name_and_evidence_is_keyed() {
    assert_eq!(KnowledgePoint::Borrowing.name(), "Borrowing");
    assert_eq!(KnowledgePoint::from_name("PatternMatching"), Some(KnowledgePoint::PatternMatching));
    assert_eq!(KnowledgePoint::from_name("borrowing"), None);
    assert_eq!(compile_evidence_key("abc", KnowledgePoint::Ownership), "abc:Ownership:failed");
    assert_eq!(test_evidence_key("abc", "def", KnowledgePoint::Trait), "abc:def:test:Trait:failed");
}

#[test]
fn pruning_keeps_twenty_most_recent() {
    let keys: Vec<(u64, String)> = (0..25u64).map(|i| ((i * 7) % 25, format!("session_{i}"))).collect();
    let places = session_places(&keys);
    let kept: Vec<usize> = (0..keys.len()).filter(|&i| places[i] < MAX_AUTO_SESSIONS).collect();
    assert_eq!(kept.len(), 20);
    for &i in &kept {
        assert!(keys[i].0 >= 5);
    }
}
