use pada::tools::process::terminal_cancelled;
use pada::error::PadaError;
use pada::models::Assignment;
use pada::tools::compiler::CompilerTool;
use pada::tools::runner::{judge_run, RunOutput, Runner, TestCase, TestRunner};
use pada::tools::test_gen::{boundary_case_types, build_prompt, build_prompt_with_profile, extract_json_array, generated_test_file_name};

fn run(success: bool, stdout: &str) -> Result<RunOutput, PadaError> {
    Ok(RunOutput { success, stdout: stdout.into(), stderr: String::new(), exit_code: Some(if success { 0 } else { 1 }) })
}

#[test]
fn rustc_is_called_with_edition_and_output() {
    let tool = CompilerTool::new().with_edition("2024".into()).with_rustc("/opt/rustc".into());
    assert_eq!(tool.rustc_path(), "/opt/rustc");
    assert_eq!(tool.cargo_path(), "cargo");
    assert_eq!(tool.rustc_args("main.rs", None), vec!["--edition", "2024", "main.rs"]);
    assert_eq!(tool.rustc_args("main.rs", Some("out/bin")), vec!["--edition", "2024", "main.rs", "-o", "out/bin"]);
}

#[test]
fn runners_keep_their_settings() {
    let r = Runner::new().with_timeout(5).with_workdir("/tmp".into());
    assert_eq!(r.timeout_secs(), Some(5));
    assert_eq!(r.workdir(), Some("/tmp"));
    let t = TestRunner::with_runner(r);
    assert_eq!(t.get_runner().timeout_secs(), Some(5));
    assert_eq!(TestRunner::new().get_runner().timeout_secs(), None);
}

#[test]
fn runs_are_judged_on_trimmed_output() {
    let case = TestCase::new("t".into(), "1".into(), " 2\n".into());
    let r = judge_run(&case, run(true, "2 \n")).unwrap();
    assert!(r.passed);
    assert_eq!(r.actual_output, "2 \n");
    assert!(!judge_run(&case, run(false, "2")).unwrap().passed);
    let failed = judge_run(&case, Err(PadaError::Run("boom".into()))).unwrap();
    assert!(!failed.passed);
    assert_eq!(failed.actual_output, "");
    assert_eq!(judge_run(&case, Err(PadaError::FileNotFound("a.out".into()))).unwrap_err(), PadaError::FileNotFound("a.out".into()));
}

#[test]
fn a_missing_program_stops_the_run() {
    let cases = vec![TestCase::new("a".into(), "".into(), "1".into()), TestCase::new("b".into(), "".into(), "2".into())];
    let ok = TestRunner::new().run_tests(&cases, vec![run(true, "1"), run(true, "3")]).unwrap();
    assert_eq!(ok.len(), 2);
    assert!(ok[0].passed && !ok[1].passed);
    let err = TestRunner::new().run_tests(&cases, vec![run(true, "1"), Err(PadaError::FileNotFound("x".into()))]);
    assert_eq!(err.unwrap_err(), PadaError::FileNotFound("x".into()));
}

#[test]
fn json_arrays_are_found() {
    assert_eq!(extract_json_array("text\n```json\n[1]\n```\nmore").unwrap(), "[1]");
    assert_eq!(extract_json_array("```\n[2]\n```").unwrap(), "[2]");
    assert_eq!(extract_json_array("here [3, [4]] end").unwrap(), "[3, [4]]");
    assert_eq!(extract_json_array("no array").unwrap_err(), PadaError::Parse("响应中未找到 JSON 数组".into()));
}

#[test]
fn the_generation_prompt_names_the_boundaries() {
    assert_eq!(boundary_case_types().len(), 6);
    let a = Assignment { title: "求和".into(), description: "读入整数求和".into() };
    let p = build_prompt(&a);
    assert_eq!(p.len(), 2);
    assert!(p[1].content.starts_with("题目：求和\n\n描述：\n读入整数求和\n\n请生成覆盖以下边界类型的测试用例：\n- 空输入\n- 单元素"));
    assert!(p[1].content.ends_with("- 大规模输入"));
    let q = build_prompt_with_profile(&a, "学习画像：目前没有明确薄弱点。");
    assert_eq!(q.len(), 3);
    assert_eq!(q[1].role, "system");
    assert_eq!(q[1].content, "学习画像：目前没有明确薄弱点。");
    assert_eq!(q[2], p[1]);
}

#[test]
fn generated_files_are_numbered() {
    assert_eq!(generated_test_file_name(1), "generated_tests.json");
    assert_eq!(generated_test_file_name(2), "generated_tests_2.json");
}

#[test]
fn terminal_stop_words() {
    assert!(!terminal_cancelled(None));
    assert!(terminal_cancelled(Some(" Q\n")));
    assert!(terminal_cancelled(Some("EXIT")));
    assert!(terminal_cancelled(Some("取消\n")));
    assert!(!terminal_cancelled(Some("next")));
    assert!(!terminal_cancelled(Some("")));
}
