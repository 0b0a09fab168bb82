//! Classification of diagnostics and mapping of error codes to knowledge points.
//!
//! Compiler errors are mapped through a fixed table of error codes; a code
//! that is unknown or missing maps to no point, with lower confidence. Test
//! failures are logic errors unless the program did not exit normally.
use crate::analysis::error_parser::{DiagnosticView, RustcDiagnostic, Severity};
use crate::models::{Diagnostic, ErrorCategory, KnowledgePoint, TestResult};
use crate::text::{chars_of, eq_str};
use vstd::prelude::*;

verus! {

/// The contents of a [`Diagnostic`].
pub struct ClassifiedView {
    pub category: ErrorCategory,
    pub knowledge_points: Seq<KnowledgePoint>,
    pub confidence_percent: u8,
}

impl View for Diagnostic {
    type V = ClassifiedView;

    open spec fn view(&self) -> ClassifiedView {
        ClassifiedView {
            category: self.category,
            knowledge_points: self.knowledge_points@,
            confidence_percent: self.confidence_percent,
        }
    }
}

pub open spec fn classified_views(v: Seq<Diagnostic>) -> Seq<ClassifiedView> {
    Seq::new(v.len(), |i: int| v[i]@)
}

/// The fixed table from rustc error codes to knowledge points.
pub open spec fn code_point_spec(c: Seq<char>) -> Option<KnowledgePoint> {
    if c == "E0308"@ || c == "E0282"@ || c == "E0284"@ || c == "E0605"@ || c == "E0606"@ || c
        == "E0369"@ || c == "E0271"@ || c == "E0283"@ {
        Some(KnowledgePoint::TypeSystem)
    } else if c == "E0425"@ || c == "E0432"@ || c == "E0433"@ || c == "E0412"@ || c == "E0603"@
        || c == "E0583"@ {
        Some(KnowledgePoint::NameResolution)
    } else if c == "E0599"@ || c == "E0046"@ || c == "E0119"@ || c == "E0277"@ || c == "E0404"@ {
        Some(KnowledgePoint::Trait)
    } else if c == "E0004"@ || c == "E0005"@ {
        Some(KnowledgePoint::PatternMatching)
    } else if c == "E0107"@ || c == "E0207"@ || c == "E0243"@ {
        Some(KnowledgePoint::Generic)
    } else if c == "E0515"@ || c == "E0716"@ || c == "E0106"@ || c == "E0597"@ {
        Some(KnowledgePoint::Lifetime)
    } else if c == "E0596"@ || c == "E0506"@ || c == "E0505"@ || c == "E0499"@ || c == "E0502"@
        || c == "E0500"@ {
        Some(KnowledgePoint::Borrowing)
    } else if c == "E0382"@ || c == "E0507"@ {
        Some(KnowledgePoint::Ownership)
    } else if c == "E0554"@ {
        Some(KnowledgePoint::Syntax)
    } else {
        None
    }
}

/// Each error code of the table names its knowledge point: the type errors
/// name the type system, unresolved names name name resolution, missing trait
/// items and impls name traits, non-exhaustive patterns name pattern matching,
/// wrong generic arguments name generics, dangling references name lifetimes,
/// the borrow conflicts (E0499, E0500, E0502, E0505, E0506, E0596) name
/// borrowing, use after move names ownership, and E0554 names syntax. A code
/// that is not `E` and four characters names nothing.
pub proof fn law_error_codes_name_their_points(c: Seq<char>)
    ensures
        (c == "E0308"@ || c == "E0282"@ || c == "E0284"@ || c == "E0605"@ || c == "E0606"@ || c == "E0369"@ || c == "E0271"@ || c == "E0283"@) ==> code_point_spec(c) == Some(KnowledgePoint::TypeSystem),
        (c == "E0425"@ || c == "E0432"@ || c == "E0433"@ || c == "E0412"@ || c == "E0603"@ || c == "E0583"@) ==> code_point_spec(c) == Some(KnowledgePoint::NameResolution),
        (c == "E0599"@ || c == "E0046"@ || c == "E0119"@ || c == "E0277"@ || c == "E0404"@) ==> code_point_spec(c) == Some(KnowledgePoint::Trait),
        (c == "E0004"@ || c == "E0005"@) ==> code_point_spec(c) == Some(KnowledgePoint::PatternMatching),
        (c == "E0107"@ || c == "E0207"@ || c == "E0243"@) ==> code_point_spec(c) == Some(KnowledgePoint::Generic),
        (c == "E0515"@ || c == "E0716"@ || c == "E0106"@ || c == "E0597"@) ==> code_point_spec(c) == Some(KnowledgePoint::Lifetime),
        (c == "E0596"@ || c == "E0506"@ || c == "E0505"@ || c == "E0499"@ || c == "E0502"@ || c == "E0500"@) ==> code_point_spec(c) == Some(KnowledgePoint::Borrowing),
        (c == "E0382"@ || c == "E0507"@) ==> code_point_spec(c) == Some(KnowledgePoint::Ownership),
        (c == "E0554"@) ==> code_point_spec(c) == Some(KnowledgePoint::Syntax),
        c.len() != 5 ==> code_point_spec(c) is None,
{
    reveal_strlit("E0004");
    reveal_strlit("E0005");
    reveal_strlit("E0046");
    reveal_strlit("E0106");
    reveal_strlit("E0107");
    reveal_strlit("E0119");
    reveal_strlit("E0207");
    reveal_strlit("E0243");
    reveal_strlit("E0271");
    reveal_strlit("E0277");
    reveal_strlit("E0282");
    reveal_strlit("E0283");
    reveal_strlit("E0284");
    reveal_strlit("E0308");
    reveal_strlit("E0369");
    reveal_strlit("E0382");
    reveal_strlit("E0404");
    reveal_strlit("E0412");
    reveal_strlit("E0425");
    reveal_strlit("E0432");
    reveal_strlit("E0433");
    reveal_strlit("E0499");
    reveal_strlit("E0500");
    reveal_strlit("E0502");
    reveal_strlit("E0505");
    reveal_strlit("E0506");
    reveal_strlit("E0507");
    reveal_strlit("E0515");
    reveal_strlit("E0554");
    reveal_strlit("E0583");
    reveal_strlit("E0596");
    reveal_strlit("E0597");
    reveal_strlit("E0599");
    reveal_strlit("E0603");
    reveal_strlit("E0605");
    reveal_strlit("E0606");
    reveal_strlit("E0716");
    if c == "E0004"@ {
        assert(c[0] == 'E' && c[1] == '0' && c[2] == '0' && c[3] == '0' && c[4] == '4');
    }
    if c == "E0005"@ {
        assert(c[0] == 'E' && c[1] == '0' && c[2] == '0' && c[3] == '0' && c[4] == '5');
    }
    if c == "E0046"@ {
        assert(c[0] == 'E' && c[1] == '0' && c[2] == '0' && c[3] == '4' && c[4] == '6');
    }
    if c == "E0106"@ {
        assert(c[0] == 'E' && c[1] == '0' && c[2] == '1' && c[3] == '0' && c[4] == '6');
    }
    if c == "E0107"@ {
        assert(c[0] == 'E' && c[1] == '0' && c[2] == '1' && c[3] == '0' && c[4] == '7');
    }
    if c == "E0119"@ {
        assert(c[0] == 'E' && c[1] == '0' && c[2] == '1' && c[3] == '1' && c[4] == '9');
    }
    if c == "E0207"@ {
        assert(c[0] == 'E' && c[1] == '0' && c[2] == '2' && c[3] == '0' && c[4] == '7');
    }
    if c == "E0243"@ {
        assert(c[0] == 'E' && c[1] == '0' && c[2] == '2' && c[3] == '4' && c[4] == '3');
    }
    if c == "E0271"@ {
        assert(c[0] == 'E' && c[1] == '0' && c[2] == '2' && c[3] == '7' && c[4] == '1');
    }
    if c == "E0277"@ {
        assert(c[0] == 'E' && c[1] == '0' && c[2] == '2' && c[3] == '7' && c[4] == '7');
    }
    if c == "E0282"@ {
        assert(c[0] == 'E' && c[1] == '0' && c[2] == '2' && c[3] == '8' && c[4] == '2');
    }
    if c == "E0283"@ {
        assert(c[0] == 'E' && c[1] == '0' && c[2] == '2' && c[3] == '8' && c[4] == '3');
    }
    if c == "E0284"@ {
        assert(c[0] == 'E' && c[1] == '0' && c[2] == '2' && c[3] == '8' && c[4] == '4');
    }
    if c == "E0308"@ {
        assert(c[0] == 'E' && c[1] == '0' && c[2] == '3' && c[3] == '0' && c[4] == '8');
    }
    if c == "E0369"@ {
        assert(c[0] == 'E' && c[1] == '0' && c[2] == '3' && c[3] == '6' && c[4] == '9');
    }
    if c == "E0382"@ {
        assert(c[0] == 'E' && c[1] == '0' && c[2] == '3' && c[3] == '8' && c[4] == '2');
    }
    if c == "E0404"@ {
        assert(c[0] == 'E' && c[1] == '0' && c[2] == '4' && c[3] == '0' && c[4] == '4');
    }
    if c == "E0412"@ {
        assert(c[0] == 'E' && c[1] == '0' && c[2] == '4' && c[3] == '1' && c[4] == '2');
    }
    if c == "E0425"@ {
        assert(c[0] == 'E' && c[1] == '0' && c[2] == '4' && c[3] == '2' && c[4] == '5');
    }
    if c == "E0432"@ {
        assert(c[0] == 'E' && c[1] == '0' && c[2] == '4' && c[3] == '3' && c[4] == '2');
    }
    if c == "E0433"@ {
        assert(c[0] == 'E' && c[1] == '0' && c[2] == '4' && c[3] == '3' && c[4] == '3');
    }
    if c == "E0499"@ {
        assert(c[0] == 'E' && c[1] == '0' && c[2] == '4' && c[3] == '9' && c[4] == '9');
    }
    if c == "E0500"@ {
        assert(c[0] == 'E' && c[1] == '0' && c[2] == '5' && c[3] == '0' && c[4] == '0');
    }
    if c == "E0502"@ {
        assert(c[0] == 'E' && c[1] == '0' && c[2] == '5' && c[3] == '0' && c[4] == '2');
    }
    if c == "E0505"@ {
        assert(c[0] == 'E' && c[1] == '0' && c[2] == '5' && c[3] == '0' && c[4] == '5');
    }
    if c == "E0506"@ {
        assert(c[0] == 'E' && c[1] == '0' && c[2] == '5' && c[3] == '0' && c[4] == '6');
    }
    if c == "E0507"@ {
        assert(c[0] == 'E' && c[1] == '0' && c[2] == '5' && c[3] == '0' && c[4] == '7');
    }
    if c == "E0515"@ {
        assert(c[0] == 'E' && c[1] == '0' && c[2] == '5' && c[3] == '1' && c[4] == '5');
    }
    if c == "E0554"@ {
        assert(c[0] == 'E' && c[1] == '0' && c[2] == '5' && c[3] == '5' && c[4] == '4');
    }
    if c == "E0583"@ {
        assert(c[0] == 'E' && c[1] == '0' && c[2] == '5' && c[3] == '8' && c[4] == '3');
    }
    if c == "E0596"@ {
        assert(c[0] == 'E' && c[1] == '0' && c[2] == '5' && c[3] == '9' && c[4] == '6');
    }
    if c == "E0597"@ {
        assert(c[0] == 'E' && c[1] == '0' && c[2] == '5' && c[3] == '9' && c[4] == '7');
    }
    if c == "E0599"@ {
        assert(c[0] == 'E' && c[1] == '0' && c[2] == '5' && c[3] == '9' && c[4] == '9');
    }
    if c == "E0603"@ {
        assert(c[0] == 'E' && c[1] == '0' && c[2] == '6' && c[3] == '0' && c[4] == '3');
    }
    if c == "E0605"@ {
        assert(c[0] == 'E' && c[1] == '0' && c[2] == '6' && c[3] == '0' && c[4] == '5');
    }
    if c == "E0606"@ {
        assert(c[0] == 'E' && c[1] == '0' && c[2] == '6' && c[3] == '0' && c[4] == '6');
    }
    if c == "E0716"@ {
        assert(c[0] == 'E' && c[1] == '0' && c[2] == '7' && c[3] == '1' && c[4] == '6');
    }
}

fn code_point_chars(c: &Vec<char>) -> (r: Option<KnowledgePoint>)
    ensures
        r == code_point_spec(c@),
{
    if eq_str(c, "E0308") || eq_str(c, "E0282") || eq_str(c, "E0284") || eq_str(c, "E0605")
        || eq_str(c, "E0606") || eq_str(c, "E0369") || eq_str(c, "E0271") || eq_str(c, "E0283") {
        Some(KnowledgePoint::TypeSystem)
    } else if eq_str(c, "E0425") || eq_str(c, "E0432") || eq_str(c, "E0433") || eq_str(c, "E0412")
        || eq_str(c, "E0603") || eq_str(c, "E0583") {
        Some(KnowledgePoint::NameResolution)
    } else if eq_str(c, "E0599") || eq_str(c, "E0046") || eq_str(c, "E0119") || eq_str(c, "E0277")
        || eq_str(c, "E0404") {
        Some(KnowledgePoint::Trait)
    } else if eq_str(c, "E0004") || eq_str(c, "E0005") {
        Some(KnowledgePoint::PatternMatching)
    } else if eq_str(c, "E0107") || eq_str(c, "E0207") || eq_str(c, "E0243") {
        Some(KnowledgePoint::Generic)
    } else if eq_str(c, "E0515") || eq_str(c, "E0716") || eq_str(c, "E0106") || eq_str(c, "E0597") {
        Some(KnowledgePoint::Lifetime)
    } else if eq_str(c, "E0596") || eq_str(c, "E0506") || eq_str(c, "E0505") || eq_str(c, "E0499")
        || eq_str(c, "E0502") || eq_str(c, "E0500") {
        Some(KnowledgePoint::Borrowing)
    } else if eq_str(c, "E0382") || eq_str(c, "E0507") {
        Some(KnowledgePoint::Ownership)
    } else if eq_str(c, "E0554") {
        Some(KnowledgePoint::Syntax)
    } else {
        None
    }
}

/// Maps a rustc error code such as `"E0382"` to a knowledge point;
/// `None` when the code is not in the table.
pub fn code_to_knowledge_point(code: &str) -> (r: Option<KnowledgePoint>)
    ensures
        r == code_point_spec(code@),
{
    let c = chars_of(code);
    code_point_chars(&c)
}

/// Classification of one compiler diagnostic: always a compile error. A code
/// in the table gives its knowledge point at 95% confidence; a code outside
/// the table gives no point at 50%; no code gives no point at 30%.
pub open spec fn classify_spec(d: DiagnosticView) -> ClassifiedView {
    let (points, conf) = match d.code {
        Some(c) => match code_point_spec(c) {
            Some(p) => (seq![p], 95u8),
            None => (Seq::<KnowledgePoint>::empty(), 50u8),
        },
        None => (Seq::<KnowledgePoint>::empty(), 30u8),
    };
    ClassifiedView { category: ErrorCategory::CompileError, knowledge_points: points, confidence_percent: conf }
}

/// Classifies one compiler diagnostic; every compiler diagnostic is a compile error.
pub fn classify_compile_diagnostic(diag: &RustcDiagnostic) -> (r: Diagnostic)
    ensures
        r@ == classify_spec(diag@),
{
    let mut knowledge_points: Vec<KnowledgePoint> = Vec::new();
    let mut confidence: u8 = 95;
    match &diag.code {
        Some(code) => {
            let cv = chars_of(code.as_str());
            match code_point_chars(&cv) {
                Some(p) => {
                    knowledge_points.push(p);
                },
                None => {
                    confidence = 50;
                },
            }
        },
        None => {
            confidence = 30;
        },
    }
    let r = Diagnostic { category: ErrorCategory::CompileError, knowledge_points, confidence_percent: confidence };
    assert(r@.knowledge_points =~= classify_spec(diag@).knowledge_points);
    r
}

/// Classifications of the error-level diagnostics, in order; warnings are skipped.
pub open spec fn classify_all_spec(ds: Seq<DiagnosticView>) -> Seq<ClassifiedView>
    decreases ds.len(),
{
    if ds.len() == 0 {
        seq![]
    } else {
        let r = classify_all_spec(ds.drop_last());
        if ds.last().severity == Severity::Warning {
            r
        } else {
            r.push(classify_spec(ds.last()))
        }
    }
}

/// Classifies every error-level diagnostic; warnings are not diagnosis targets.
pub fn classify_compile_diagnostics(diags: &[RustcDiagnostic]) -> (r: Vec<Diagnostic>)
    ensures
        classified_views(r@) == classify_all_spec(crate::analysis::error_parser::diag_views(diags@)),
{
    let ghost dv = crate::analysis::error_parser::diag_views(diags@);
    let mut out: Vec<Diagnostic> = Vec::new();
    let mut i: usize = 0;
    while i < diags.len()
        invariant
            i <= diags@.len(),
            dv == crate::analysis::error_parser::diag_views(diags@),
            classified_views(out@) == classify_all_spec(dv.take(i as int)),
        decreases diags.len() - i,
    {
        assert(dv.take(i + 1).drop_last() =~= dv.take(i as int));
        assert(dv.take(i + 1).last() == diags@[i as int]@);
        if diags[i].severity != Severity::Warning {
            let c = classify_compile_diagnostic(&diags[i]);
            out.push(c);
        }
        i = i + 1;
        assert(classified_views(out@) =~= classify_all_spec(dv.take(i as int)));
    }
    assert(dv.take(diags@.len() as int) =~= dv);
    out
}

/// A failed test whose program exited normally: a logic error with no
/// knowledge point yet, at 30% confidence.
pub fn classify_test_failure(name: &str, actual: &str, expected: &str) -> (r: Diagnostic)
    ensures
        r@ == (ClassifiedView {
            category: ErrorCategory::LogicError,
            knowledge_points: seq![],
            confidence_percent: 30,
        }),
{
    let r = Diagnostic {
        category: ErrorCategory::LogicError,
        knowledge_points: Vec::new(),
        confidence_percent: 30,
    };
    assert(r@.knowledge_points =~= seq![]);
    r
}

/// Classification of a test result: a run that did not exit normally is a
/// runtime error about error handling at 90%; otherwise a logic error.
pub open spec fn classify_test_spec(has_runtime_error: bool) -> ClassifiedView {
    if has_runtime_error {
        ClassifiedView {
            category: ErrorCategory::RuntimeError,
            knowledge_points: seq![KnowledgePoint::ErrorHandling],
            confidence_percent: 90,
        }
    } else {
        ClassifiedView {
            category: ErrorCategory::LogicError,
            knowledge_points: seq![],
            confidence_percent: 30,
        }
    }
}

/// Tells runtime errors apart from output mismatches by the run's exit state.
pub fn classify_test_result(result: &TestResult) -> (r: Diagnostic)
    ensures
        r@ == classify_test_spec(result.runtime_error is Some),
{
    if result.runtime_error.is_some() {
        let mut points: Vec<KnowledgePoint> = Vec::new();
        points.push(KnowledgePoint::ErrorHandling);
        let r = Diagnostic {
            category: ErrorCategory::RuntimeError,
            knowledge_points: points,
            confidence_percent: 90,
        };
        assert(r@.knowledge_points =~= seq![KnowledgePoint::ErrorHandling]);
        r
    } else {
        classify_test_failure(result.name.as_str(), result.actual_output.as_str(), result.expected_output.as_str())
    }
}

} // verus!
