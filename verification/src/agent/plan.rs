//! The decisions of one diagnosis run that do not depend on I/O: which
//! option combinations are refused, what the compiler's output gives as
//! evidence, and whether the tests are run.
use crate::analysis::classifier::{classified_views, classify_all_spec, classify_compile_diagnostics};
use crate::analysis::error_parser::{diag_views, diagnostics_spec, parse_diagnostics, DiagnosticView, RustcDiagnostic};
use crate::models::Diagnostic;
use crate::error::PadaError;
use crate::text::string_from;
use crate::tools::compiler::CompileOutput;
use vstd::prelude::*;

verus! {

/// Why a Cargo project cannot be diagnosed with stdin/stdout tests.
pub open spec fn project_tests_message() -> Seq<char> {
    "Cargo 项目模式暂不支持 stdin/stdout JSON 测试；请移除 --tests/--generate-tests，或使用 --code 诊断单文件"@
}

/// Why tests cannot be generated in a mode that does not run them.
pub open spec fn generation_without_tests_message() -> Seq<char> {
    "--generate-tests 在 low 模式下不会执行生成的测试；请使用 --effort medium 或更高模式"@
}

/// A Cargo project (`project`) cannot be combined with a test file (`tests`)
/// or with generated tests (`generate_tests`).
pub fn check_input_modes(project: bool, tests: bool, generate_tests: bool) -> (r: Result<(), PadaError>)
    ensures
        r is Ok <==> !(project && (tests || generate_tests)),
        r matches Err(e) ==> (e matches PadaError::Config(m) && m@ == project_tests_message()),
{
    if project && (tests || generate_tests) {
        Err(PadaError::Config(string_from(
            "Cargo 项目模式暂不支持 stdin/stdout JSON 测试；请移除 --tests/--generate-tests，或使用 --code 诊断单文件",
        )))
    } else {
        Ok(())
    }
}

/// Generating tests is refused when the mode's policy does not run tests.
pub fn check_test_generation(generate_tests: bool, run_tests: bool) -> (r: Result<(), PadaError>)
    ensures
        r is Ok <==> !(generate_tests && !run_tests),
        r matches Err(e) ==> (e matches PadaError::Config(m) && m@ == generation_without_tests_message()),
{
    if generate_tests && !run_tests {
        Err(PadaError::Config(string_from(
            "--generate-tests 在 low 模式下不会执行生成的测试；请使用 --effort medium 或更高模式",
        )))
    } else {
        Ok(())
    }
}

/// The compiler diagnostics of a compilation and their classification: none
/// when it succeeded (warnings then count for nothing), else every diagnostic
/// parsed from its stderr.
pub fn compile_evidence(output: &CompileOutput) -> (r: (Vec<RustcDiagnostic>, Vec<Diagnostic>))
    ensures
        output.success ==> r.0@.len() == 0 && r.1@.len() == 0,
        !output.success ==> diag_views(r.0@) == diagnostics_spec(output.stderr@),
        classified_views(r.1@) == classify_all_spec(diag_views(r.0@)),
{
    if output.success {
        let d: Vec<RustcDiagnostic> = Vec::new();
        let c: Vec<Diagnostic> = Vec::new();
        proof {
            assert(diag_views(d@) =~= Seq::<DiagnosticView>::empty());
        }
        return (d, c);
    }
    let diags = parse_diagnostics(output.stderr.as_str());
    let classified = classify_compile_diagnostics(diags.as_slice());
    (diags, classified)
}

/// What happens to the external tests after compiling.
#[derive(Debug, Clone, Copy, PartialEq, Eq, Structural)]
pub enum TestRunChoice {
    /// Nothing compiled, or there are no tests.
    NotRun,
    /// The tests exist and the program compiled, but the mode does not run tests.
    Skipped,
    /// The tests are run against the compiled program.
    Run,
}

/// Tests are run only when the program compiled, there are tests, and the
/// mode runs tests; they are skipped (and the user told so) when only the
/// mode stands in the way.
pub fn test_run_choice(compiled: bool, test_count: usize, run_tests: bool) -> (r: TestRunChoice)
    ensures
        r == (if !compiled || test_count == 0 {
            TestRunChoice::NotRun
        } else if !run_tests {
            TestRunChoice::Skipped
        } else {
            TestRunChoice::Run
        }),
{
    if !compiled || test_count == 0 {
        TestRunChoice::NotRun
    } else if !run_tests {
        TestRunChoice::Skipped
    } else {
        TestRunChoice::Run
    }
}

} // verus!
