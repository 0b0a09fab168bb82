use pada::agent::plan::{check_input_modes, check_test_generation, compile_evidence, test_run_choice, TestRunChoice};
use pada::analysis::classifier::classify_compile_diagnostics;
use pada::analysis::error_parser::parse_diagnostics;
use pada::error::PadaError;
use pada::models::KnowledgePoint;
use pada::tools::compiler::CompileOutput;

#[test]
fn a_project_cannot_take_stdin_tests() {
    let refused = PadaError::Config(
        "Cargo 项目模式暂不支持 stdin/stdout JSON 测试；请移除 --tests/--generate-tests，或使用 --code 诊断单文件".into(),
    );
    assert_eq!(check_input_modes(true, true, false), Err(refused.clone()));
    assert_eq!(check_input_modes(true, false, true), Err(refused));
    assert_eq!(check_input_modes(true, false, false), Ok(()));
    assert_eq!(check_input_modes(false, true, true), Ok(()));
}

#[test]
fn tests_are_not_generated_in_a_mode_that_skips_them() {
    assert_eq!(
        check_test_generation(true, false),
        Err(PadaError::Config("--generate-tests 在 low 模式下不会执行生成的测试；请使用 --effort medium 或更高模式".into()))
    );
    assert_eq!(check_test_generation(true, true), Ok(()));
    assert_eq!(check_test_generation(false, false), Ok(()));
}

#[test]
fn warnings_of_a_successful_build_are_no_evidence() {
    let stderr = "warning: unused variable: `x`\n --> src/main.rs:2:9\n".to_string();
    let ok = CompileOutput { success: true, stdout: String::new(), stderr: stderr.clone(), exit_code: Some(0) };
    let (diags, classified) = compile_evidence(&ok);
    assert!(diags.is_empty() && classified.is_empty());
    let failed = CompileOutput {
        success: false,
        stdout: String::new(),
        stderr: format!("{stderr}\nerror[E0382]: borrow of moved value: `s`\n --> src/main.rs:5:20\n"),
        exit_code: Some(1),
    };
    let (diags, classified) = compile_evidence(&failed);
    assert_eq!(diags, parse_diagnostics(&failed.stderr));
    assert_eq!(classified, classify_compile_diagnostics(&diags));
    assert!(classified.iter().any(|c| c.knowledge_points == vec![KnowledgePoint::Ownership]));
}

#[test]
fn tests_run_only_after_a_build_in_a_mode_that_runs_them() {
    assert_eq!(test_run_choice(false, 3, true), TestRunChoice::NotRun);
    assert_eq!(test_run_choice(true, 0, true), TestRunChoice::NotRun);
    assert_eq!(test_run_choice(true, 3, false), TestRunChoice::Skipped);
    assert_eq!(test_run_choice(true, 3, true), TestRunChoice::Run);
}
