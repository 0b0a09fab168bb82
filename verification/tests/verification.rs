use pada::agent::progress::{analysis_stage_detail, compile_stage_detail, report_stage_detail};
use pada::agent::verification::{
    compile_results_agree, test_results_agree, verification_pass_input, verification_pass_output, verification_verdict,
};
use pada::config::effort::EffortMode;
use pada::models::{HintLevel, TestResult};
use pada::tools::compiler::CompileOutput;

fn compiled(success: bool, stderr: &str) -> CompileOutput {
    CompileOutput { success, stdout: String::new(), stderr: stderr.into(), exit_code: Some(if success { 0 } else { 1 }) }
}

const BORROW: &str = "error[E0382]: borrow of moved value: `s`\n --> src/main.rs:4:20\n";
const OTHER: &str = "error[E0308]: mismatched types\n --> src/main.rs:4:20\n";

fn result(name: &str, passed: bool, actual: &str) -> TestResult {
    TestResult { name: name.into(), passed, actual_output: actual.into(), expected_output: "6".into(), runtime_error: None }
}

#[test]
fn repeated_compilations_are_compared() {
    assert!(compile_results_agree(&compiled(true, ""), &compiled(true, "warning: x")));
    assert!(!compile_results_agree(&compiled(true, ""), &compiled(false, BORROW)));
    assert!(compile_results_agree(&compiled(false, BORROW), &compiled(false, BORROW)));
    assert!(!compile_results_agree(&compiled(false, BORROW), &compiled(false, OTHER)));
    assert!(!compile_results_agree(&compiled(false, BORROW), &compiled(false, "")));
}

#[test]
fn repeated_test_runs_are_compared() {
    let a = vec![result("a", true, "6"), result("b", false, "5")];
    assert!(test_results_agree(&a, &a.clone()));
    assert!(!test_results_agree(&a, &[result("a", true, "6"), result("b", false, "7")]));
    assert!(!test_results_agree(&a, &a[..1]));
}

#[test]
fn verification_passes_are_recorded() {
    assert_eq!(verification_pass_input(EffortMode::High, 2), "effort=high, pass=2");
    assert_eq!(verification_pass_output(true, false), "compile_consistent=true, tests_consistent=false");
    assert_eq!(verification_verdict(true), "重复编译与测试结果一致");
    assert_eq!(verification_verdict(false), "重复执行结果不一致，提示用户检查非确定性行为");
}

#[test]
fn stages_are_described_before_they_run() {
    assert_eq!(compile_stage_detail(false), "使用 cargo check 检查整个多文件项目。");
    assert_eq!(analysis_stage_detail(0, true, EffortMode::Medium, true), "解析编译器证据并映射知识点；当前没有外部测试用例。");
    assert_eq!(analysis_stage_detail(3, false, EffortMode::Low, false), "思考模式 low 将跳过 3 个外部测试，只分析编译器证据。");
    assert_eq!(analysis_stage_detail(2, true, EffortMode::Medium, true), "解析编译器证据并运行 2 个测试；失败用例会调用模型映射知识点并消耗 Token。");
    assert_eq!(analysis_stage_detail(2, true, EffortMode::Medium, false), "解析编译器证据；编译成功后运行 2 个测试，并分析失败用例。");
    assert_eq!(report_stage_detail(4, HintLevel::Direction, true), "整理 4 个问题，并调用模型增强 Level 4 提示。");
    assert_eq!(report_stage_detail(4, HintLevel::Direction, false), "按当前提示等级整理 4 个问题及相应提示。");
    assert_eq!(report_stage_detail(1, HintLevel::Location, true), "按当前提示等级整理 1 个问题及相应提示。");
}
