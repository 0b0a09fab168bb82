//! Core data shapes shared by the diagnosis pipeline.
use crate::text::{chars_of, eq_str};
use vstd::prelude::*;

verus! {

/// A programming assignment.
#[derive(Debug, Clone, PartialEq, Eq)]
pub struct Assignment {
    /// Title of the assignment.
    pub title: String,
    /// Description (Markdown).
    pub description: String,
}

/// A student's submission.
#[derive(Debug, Clone, PartialEq, Eq)]
pub struct Submission {
    /// Source code.
    pub source_code: String,
    /// Results of the tests run against it.
    pub test_results: Vec<TestResult>,
}

/// The result of running one test case.
#[derive(Debug, Clone, PartialEq, Eq)]
pub struct TestResult {
    /// Name of the test case.
    pub name: String,
    /// Whether it passed.
    pub passed: bool,
    /// Actual standard output.
    pub actual_output: String,
    /// Expected standard output.
    pub expected_output: String,
    /// Why the program did not exit normally, when it did not.
    pub runtime_error: Option<String>,
}

/// A classified problem: its category, the Rust knowledge points it touches,
/// and how confident the classification is, in percent (0..=100).
#[derive(Debug, Clone, PartialEq, Eq)]
pub struct Diagnostic {
    pub category: ErrorCategory,
    pub knowledge_points: Vec<KnowledgePoint>,
    pub confidence_percent: u8,
}

/// The main kinds of error.
#[derive(Debug, Clone, Copy, PartialEq, Eq, Structural, Hash)]
pub enum ErrorCategory {
    CompileError,
    RuntimeError,
    LogicError,
    BoundaryCondition,
    AlgorithmError,
}

/// Rust knowledge points that errors are mapped to.
#[derive(Debug, Clone, Copy, PartialEq, Eq, Structural, Hash)]
pub enum KnowledgePoint {
    TypeSystem,
    Syntax,
    NameResolution,
    Ownership,
    Borrowing,
    Lifetime,
    Trait,
    Generic,
    Iterator,
    Option,
    Result,
    PatternMatching,
    Collection,
    ErrorHandling,
    AlgorithmLogic,
}

/// The name a knowledge point is stored under: its variant name.
pub open spec fn point_name_spec(p: KnowledgePoint) -> Seq<char> {
    match p {
        KnowledgePoint::TypeSystem => "TypeSystem"@,
        KnowledgePoint::Syntax => "Syntax"@,
        KnowledgePoint::NameResolution => "NameResolution"@,
        KnowledgePoint::Ownership => "Ownership"@,
        KnowledgePoint::Borrowing => "Borrowing"@,
        KnowledgePoint::Lifetime => "Lifetime"@,
        KnowledgePoint::Trait => "Trait"@,
        KnowledgePoint::Generic => "Generic"@,
        KnowledgePoint::Iterator => "Iterator"@,
        KnowledgePoint::Option => "Option"@,
        KnowledgePoint::Result => "Result"@,
        KnowledgePoint::PatternMatching => "PatternMatching"@,
        KnowledgePoint::Collection => "Collection"@,
        KnowledgePoint::ErrorHandling => "ErrorHandling"@,
        KnowledgePoint::AlgorithmLogic => "AlgorithmLogic"@,
    }
}

/// The knowledge point stored under `name`, if any.
pub open spec fn point_named_spec(name: Seq<char>) -> Option<KnowledgePoint> {
    if name == "TypeSystem"@ {
        Some(KnowledgePoint::TypeSystem)
    } else if name == "Syntax"@ {
        Some(KnowledgePoint::Syntax)
    } else if name == "NameResolution"@ {
        Some(KnowledgePoint::NameResolution)
    } else if name == "Ownership"@ {
        Some(KnowledgePoint::Ownership)
    } else if name == "Borrowing"@ {
        Some(KnowledgePoint::Borrowing)
    } else if name == "Lifetime"@ {
        Some(KnowledgePoint::Lifetime)
    } else if name == "Trait"@ {
        Some(KnowledgePoint::Trait)
    } else if name == "Generic"@ {
        Some(KnowledgePoint::Generic)
    } else if name == "Iterator"@ {
        Some(KnowledgePoint::Iterator)
    } else if name == "Option"@ {
        Some(KnowledgePoint::Option)
    } else if name == "Result"@ {
        Some(KnowledgePoint::Result)
    } else if name == "PatternMatching"@ {
        Some(KnowledgePoint::PatternMatching)
    } else if name == "Collection"@ {
        Some(KnowledgePoint::Collection)
    } else if name == "ErrorHandling"@ {
        Some(KnowledgePoint::ErrorHandling)
    } else if name == "AlgorithmLogic"@ {
        Some(KnowledgePoint::AlgorithmLogic)
    } else {
        None
    }
}

impl KnowledgePoint {
    /// The name this point is stored under in the learning profile.
    pub fn name(&self) -> (r: &'static str)
        ensures
            r@ == point_name_spec(*self),
    {
        match self {
            KnowledgePoint::TypeSystem => "TypeSystem",
            KnowledgePoint::Syntax => "Syntax",
            KnowledgePoint::NameResolution => "NameResolution",
            KnowledgePoint::Ownership => "Ownership",
            KnowledgePoint::Borrowing => "Borrowing",
            KnowledgePoint::Lifetime => "Lifetime",
            KnowledgePoint::Trait => "Trait",
            KnowledgePoint::Generic => "Generic",
            KnowledgePoint::Iterator => "Iterator",
            KnowledgePoint::Option => "Option",
            KnowledgePoint::Result => "Result",
            KnowledgePoint::PatternMatching => "PatternMatching",
            KnowledgePoint::Collection => "Collection",
            KnowledgePoint::ErrorHandling => "ErrorHandling",
            KnowledgePoint::AlgorithmLogic => "AlgorithmLogic",
        }
    }

    /// The point stored under `name`, if any.
    pub fn from_name(name: &str) -> (r: Option<KnowledgePoint>)
        ensures
            r == point_named_spec(name@),
    {
        let c = chars_of(name);
        if eq_str(&c, "TypeSystem") {
            Some(KnowledgePoint::TypeSystem)
        } else if eq_str(&c, "Syntax") {
            Some(KnowledgePoint::Syntax)
        } else if eq_str(&c, "NameResolution") {
            Some(KnowledgePoint::NameResolution)
        } else if eq_str(&c, "Ownership") {
            Some(KnowledgePoint::Ownership)
        } else if eq_str(&c, "Borrowing") {
            Some(KnowledgePoint::Borrowing)
        } else if eq_str(&c, "Lifetime") {
            Some(KnowledgePoint::Lifetime)
        } else if eq_str(&c, "Trait") {
            Some(KnowledgePoint::Trait)
        } else if eq_str(&c, "Generic") {
            Some(KnowledgePoint::Generic)
        } else if eq_str(&c, "Iterator") {
            Some(KnowledgePoint::Iterator)
        } else if eq_str(&c, "Option") {
            Some(KnowledgePoint::Option)
        } else if eq_str(&c, "Result") {
            Some(KnowledgePoint::Result)
        } else if eq_str(&c, "PatternMatching") {
            Some(KnowledgePoint::PatternMatching)
        } else if eq_str(&c, "Collection") {
            Some(KnowledgePoint::Collection)
        } else if eq_str(&c, "ErrorHandling") {
            Some(KnowledgePoint::ErrorHandling)
        } else if eq_str(&c, "AlgorithmLogic") {
            Some(KnowledgePoint::AlgorithmLogic)
        } else {
            None
        }
    }
}

/// A knowledge point is found again under its stored name.
pub proof fn law_point_names_round_trip(p: KnowledgePoint)
    ensures
        point_named_spec(point_name_spec(p)) == Some(p),
{
    reveal_strlit("TypeSystem");
    assert("TypeSystem"@.len() == 10 && "TypeSystem"@[0] == 'T');
    reveal_strlit("Syntax");
    assert("Syntax"@.len() == 6 && "Syntax"@[0] == 'S');
    reveal_strlit("NameResolution");
    assert("NameResolution"@.len() == 14 && "NameResolution"@[0] == 'N');
    reveal_strlit("Ownership");
    assert("Ownership"@.len() == 9 && "Ownership"@[0] == 'O');
    reveal_strlit("Borrowing");
    assert("Borrowing"@.len() == 9 && "Borrowing"@[0] == 'B');
    reveal_strlit("Lifetime");
    assert("Lifetime"@.len() == 8 && "Lifetime"@[0] == 'L');
    reveal_strlit("Trait");
    assert("Trait"@.len() == 5 && "Trait"@[0] == 'T');
    reveal_strlit("Generic");
    assert("Generic"@.len() == 7 && "Generic"@[0] == 'G');
    reveal_strlit("Iterator");
    assert("Iterator"@.len() == 8 && "Iterator"@[0] == 'I');
    reveal_strlit("Option");
    assert("Option"@.len() == 6 && "Option"@[0] == 'O');
    reveal_strlit("Result");
    assert("Result"@.len() == 6 && "Result"@[0] == 'R');
    reveal_strlit("PatternMatching");
    assert("PatternMatching"@.len() == 15 && "PatternMatching"@[0] == 'P');
    reveal_strlit("Collection");
    assert("Collection"@.len() == 10 && "Collection"@[0] == 'C');
    reveal_strlit("ErrorHandling");
    assert("ErrorHandling"@.len() == 13 && "ErrorHandling"@[0] == 'E');
    reveal_strlit("AlgorithmLogic");
    assert("AlgorithmLogic"@.len() == 14 && "AlgorithmLogic"@[0] == 'A');
}

/// Hint levels, from least to most revealing.
#[derive(Debug, Clone, Copy, PartialEq, Eq, Structural, Hash)]
pub enum HintLevel {
    /// 1. error category
    Category,
    /// 2. error location
    Location,
    /// 3. related knowledge points
    Concept,
    /// 4. direction of the fix
    Direction,
    /// 5. reference solution
    Solution,
}

} // verus!
