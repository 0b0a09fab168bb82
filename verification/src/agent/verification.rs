//! Repeating compilation and tests to catch results that change from run to
//! run: the comparisons, and what the session records of each pass.
use crate::analysis::error_parser::{
    diag_views, diagnostics_spec, opt_loc, opt_str, parse_diagnostics, DiagnosticView, LocationView,
    RustcDiagnostic, SourceLocation,
};
use crate::config::effort::{mode_name_spec, EffortMode};
use crate::models::TestResult;
use crate::text::{decimal, push_decimal, push_str, str_eq, string_from};
use crate::tools::compiler::CompileOutput;
use vstd::prelude::*;

verus! {

/// What a diagnostic is compared by: its code, message and location.
pub open spec fn diag_key(d: DiagnosticView) -> (Option<Seq<char>>, Seq<char>, Option<LocationView>) {
    (d.code, d.message, d.location)
}

/// What a compile result is compared by: success, or the diagnostics of the
/// failure in order.
pub open spec fn compile_key(success: bool, stderr: Seq<char>) -> Option<
    Seq<(Option<Seq<char>>, Seq<char>, Option<LocationView>)>,
> {
    if success {
        None
    } else {
        Some(diagnostics_spec(stderr).map_values(|d: DiagnosticView| diag_key(d)))
    }
}

/// What a test result is compared by: all that was observed of it.
pub open spec fn result_key(t: TestResult) -> (Seq<char>, bool, Seq<char>, Seq<char>, Option<Seq<char>>) {
    (t.name@, t.passed, t.actual_output@, t.expected_output@, opt_str(t.runtime_error))
}

fn opt_string_eq(a: &Option<String>, b: &Option<String>) -> (r: bool)
    ensures
        r == (opt_str(*a) == opt_str(*b)),
{
    match (a, b) {
        (Some(x), Some(y)) => str_eq(x.as_str(), y.as_str()),
        (None, None) => true,
        _ => false,
    }
}

fn location_eq(a: &Option<SourceLocation>, b: &Option<SourceLocation>) -> (r: bool)
    ensures
        r == (opt_loc(*a) == opt_loc(*b)),
{
    match (a, b) {
        (Some(x), Some(y)) => str_eq(x.file.as_str(), y.file.as_str()) && x.line == y.line && x.column == y.column,
        (None, None) => true,
        _ => false,
    }
}

fn diag_eq(a: &RustcDiagnostic, b: &RustcDiagnostic) -> (r: bool)
    ensures
        r == (diag_key(a@) == diag_key(b@)),
{
    opt_string_eq(&a.code, &b.code) && str_eq(a.message.as_str(), b.message.as_str()) && location_eq(
        &a.location,
        &b.location,
    )
}

/// Whether two compilations agree: both succeeded, or both failed with the
/// same diagnostics (code, message and location) in the same order.
pub fn compile_results_agree(a: &CompileOutput, b: &CompileOutput) -> (r: bool)
    ensures
        r == (compile_key(a.success, a.stderr@) == compile_key(b.success, b.stderr@)),
{
    if a.success || b.success {
        return a.success == b.success;
    }
    let da = parse_diagnostics(a.stderr.as_str());
    let db = parse_diagnostics(b.stderr.as_str());
    let ghost ka = diagnostics_spec(a.stderr@).map_values(|d: DiagnosticView| diag_key(d));
    let ghost kb = diagnostics_spec(b.stderr@).map_values(|d: DiagnosticView| diag_key(d));
    assert(ka.len() == da@.len() && kb.len() == db@.len());
    if da.len() != db.len() {
        return false;
    }
    let mut i: usize = 0;
    while i < da.len()
        invariant
            i <= da@.len(),
            da@.len() == db@.len(),
            ka.len() == da@.len(),
            kb.len() == db@.len(),
            !a.success && !b.success,
            ka == diagnostics_spec(a.stderr@).map_values(|d: DiagnosticView| diag_key(d)),
            kb == diagnostics_spec(b.stderr@).map_values(|d: DiagnosticView| diag_key(d)),
            ka == diag_views(da@).map_values(|d: DiagnosticView| diag_key(d)),
            kb == diag_views(db@).map_values(|d: DiagnosticView| diag_key(d)),
            forall|j: int| 0 <= j < i ==> ka[j] == kb[j],
        decreases da.len() - i,
    {
        assert(ka[i as int] == diag_key(da@[i as int]@));
        assert(kb[i as int] == diag_key(db@[i as int]@));
        if !diag_eq(&da[i], &db[i]) {
            assert(ka[i as int] != kb[i as int]);
            assert(ka != kb);
            return false;
        }
        i = i + 1;
    }
    assert(ka =~= kb);
    true
}

/// Whether two runs of the tests agree on every result, in order.
pub fn test_results_agree(a: &[TestResult], b: &[TestResult]) -> (r: bool)
    ensures
        r == (a@.map_values(|t: TestResult| result_key(t)) == b@.map_values(|t: TestResult| result_key(t))),
{
    let ghost ka = a@.map_values(|t: TestResult| result_key(t));
    let ghost kb = b@.map_values(|t: TestResult| result_key(t));
    if a.len() != b.len() {
        assert(ka.len() != kb.len());
        return false;
    }
    let mut i: usize = 0;
    while i < a.len()
        invariant
            i <= a@.len(),
            a@.len() == b@.len(),
            ka == a@.map_values(|t: TestResult| result_key(t)),
            kb == b@.map_values(|t: TestResult| result_key(t)),
            forall|j: int| 0 <= j < i ==> ka[j] == kb[j],
        decreases a.len() - i,
    {
        let x = &a[i];
        let y = &b[i];
        let same = str_eq(x.name.as_str(), y.name.as_str()) && x.passed == y.passed && str_eq(
            x.actual_output.as_str(),
            y.actual_output.as_str(),
        ) && str_eq(x.expected_output.as_str(), y.expected_output.as_str())
            && opt_string_eq(&x.runtime_error, &y.runtime_error);
        assert(ka[i as int] == result_key(a@[i as int]) && kb[i as int] == result_key(b@[i as int]));
        if !same {
            return false;
        }
        i = i + 1;
    }
    assert(ka =~= kb);
    true
}

pub open spec fn pass_input_spec(mode: EffortMode, pass: u8) -> Seq<char> {
    "effort="@ + mode_name_spec(mode) + ", pass="@ + decimal(pass as nat)
}

pub open spec fn bool_text(b: bool) -> Seq<char> {
    if b {
        "true"@
    } else {
        "false"@
    }
}

pub open spec fn pass_output_spec(compile_consistent: bool, tests_consistent: bool) -> Seq<char> {
    "compile_consistent="@ + bool_text(compile_consistent) + ", tests_consistent="@ + bool_text(
        tests_consistent,
    )
}

pub open spec fn verdict_spec(consistent: bool) -> Seq<char> {
    if consistent {
        "重复编译与测试结果一致"@
    } else {
        "重复执行结果不一致，提示用户检查非确定性行为"@
    }
}

/// What a verification pass was run with, as the session records it.
pub fn verification_pass_input(mode: EffortMode, pass: u8) -> (r: String)
    ensures
        r@ == pass_input_spec(mode, pass),
{
    let mut s = string_from("effort=");
    push_str(&mut s, mode.as_str());
    push_str(&mut s, ", pass=");
    push_decimal(&mut s, pass as u64);
    s
}

fn push_bool(s: &mut String, b: bool)
    ensures
        final(s)@ == old(s)@ + bool_text(b),
{
    if b {
        push_str(s, "true");
    } else {
        push_str(s, "false");
    }
}

/// What a verification pass found, as the session records it.
pub fn verification_pass_output(compile_consistent: bool, tests_consistent: bool) -> (r: String)
    ensures
        r@ == pass_output_spec(compile_consistent, tests_consistent),
{
    let mut s = string_from("compile_consistent=");
    push_bool(&mut s, compile_consistent);
    push_str(&mut s, ", tests_consistent=");
    push_bool(&mut s, tests_consistent);
    s
}

/// The decision recorded after a pass: whether the results repeated.
pub fn verification_verdict(consistent: bool) -> (r: &'static str)
    ensures
        r@ == verdict_spec(consistent),
{
    if consistent {
        "重复编译与测试结果一致"
    } else {
        "重复执行结果不一致，提示用户检查非确定性行为"
    }
}

} // verus!
