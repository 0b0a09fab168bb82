//! Running test cases: the runner's settings and how a run is judged.
//!
//! A test passes when the program exits normally and its standard output,
//! trimmed, equals the expected output, trimmed.
use crate::error::PadaError;
use crate::models::TestResult;
use crate::text::{chars_eq, string_from, trim_spec, trimmed};
use vstd::prelude::*;

verus! {

/// One test case: an input and the output it should produce.
#[derive(Debug, Clone)]
pub struct TestCase {
    pub name: String,
    pub input: String,
    pub expected_output: String,
}

impl TestCase {
    pub fn new(name: String, input: String, expected_output: String) -> (r: Self)
        ensures
            r.name@ == name@,
            r.input@ == input@,
            r.expected_output@ == expected_output@,
    {
        TestCase { name, input, expected_output }
    }
}

/// What one run of the program showed.
#[derive(Debug, Clone)]
pub struct RunOutput {
    /// Whether it exited with code 0.
    pub success: bool,
    pub stdout: String,
    pub stderr: String,
    /// `None` when it was killed by a signal.
    pub exit_code: Option<i32>,
}

/// How programs are run: an optional time limit and working directory.
pub struct Runner {
    timeout_secs: Option<u64>,
    workdir: Option<String>,
}

impl Runner {
    pub closed spec fn timeout_spec(&self) -> Option<u64> {
        self.timeout_secs
    }

    pub closed spec fn workdir_spec(&self) -> Option<Seq<char>> {
        match self.workdir {
            Some(w) => Some(w@),
            None => None,
        }
    }

    /// No time limit, the current directory.
    pub fn new() -> (r: Self)
        ensures
            r.timeout_spec() is None,
            r.workdir_spec() is None,
    {
        Runner { timeout_secs: None, workdir: None }
    }

    pub fn with_timeout(self, secs: u64) -> (r: Self)
        ensures
            r.timeout_spec() == Some(secs),
            r.workdir_spec() == self.workdir_spec(),
    {
        Runner { timeout_secs: Some(secs), workdir: self.workdir }
    }

    pub fn with_workdir(self, dir: String) -> (r: Self)
        ensures
            r.timeout_spec() == self.timeout_spec(),
            r.workdir_spec() == Some(dir@),
    {
        Runner { timeout_secs: self.timeout_secs, workdir: Some(dir) }
    }

    pub fn timeout_secs(&self) -> (r: Option<u64>)
        ensures
            r == self.timeout_spec(),
    {
        self.timeout_secs
    }

    pub fn workdir(&self) -> (r: Option<&str>)
        ensures
            match r {
                Some(w) => self.workdir_spec() == Some(w@),
                None => self.workdir_spec() is None,
            },
    {
        match &self.workdir {
            Some(w) => Some(w.as_str()),
            None => None,
        }
    }
}

/// Runs all test cases of one program with one runner.
pub struct TestRunner {
    runner: Runner,
}

/// Whether a finished run passes its case.
pub open spec fn passes(run_success: bool, stdout: Seq<char>, expected: Seq<char>) -> bool {
    run_success && trim_spec(stdout) == trim_spec(expected)
}

/// The result of one case, given how its run went: a missing program stops
/// everything; any other failure to run fails the case with empty output.
pub open spec fn judged(case: TestCase, run: Result<RunOutput, PadaError>) -> Result<(bool, Seq<char>), Seq<char>> {
    match run {
        Ok(o) => Ok((passes(o.success, o.stdout@, case.expected_output@), o.stdout@)),
        Err(PadaError::FileNotFound(m)) => Err(m@),
        Err(_) => Ok((false, Seq::empty())),
    }
}

pub open spec fn result_is(r: TestResult, case: TestCase, passed: bool, actual: Seq<char>) -> bool {
    &&& r.name@ == case.name@
    &&& r.passed == passed
    &&& r.actual_output@ == actual
    &&& r.expected_output@ == case.expected_output@
    &&& r.runtime_error is None
}

/// `t` is the result of a case whose run did not stop the testing.
pub open spec fn judged_as(t: TestResult, case: TestCase, run: Result<RunOutput, PadaError>) -> bool {
    match judged(case, run) {
        Ok((p, a)) => result_is(t, case, p, a),
        Err(_) => false,
    }
}

/// Judges one run of one case.
pub fn judge_run(case: &TestCase, run: Result<RunOutput, PadaError>) -> (r: Result<TestResult, PadaError>)
    ensures
        match judged(*case, run) {
            Ok((passed, actual)) => r matches Ok(t) && result_is(t, *case, passed, actual),
            Err(m) => r matches Err(PadaError::FileNotFound(e)) && e@ == m,
        },
{
    match run {
        Ok(o) => {
            let a = trimmed(o.stdout.as_str());
            let b = trimmed(case.expected_output.as_str());
            let passed = o.success && chars_eq(&a, &b);
            Ok(TestResult {
                name: string_from(case.name.as_str()),
                passed,
                actual_output: o.stdout,
                expected_output: string_from(case.expected_output.as_str()),
                runtime_error: None,
            })
        },
        Err(PadaError::FileNotFound(m)) => Err(PadaError::FileNotFound(m)),
        Err(_) => Ok(TestResult {
            name: string_from(case.name.as_str()),
            passed: false,
            actual_output: String::new(),
            expected_output: string_from(case.expected_output.as_str()),
            runtime_error: None,
        }),
    }
}

impl TestRunner {
    pub fn new() -> (r: Self)
        ensures
            r.runner().timeout_spec() is None,
            r.runner().workdir_spec() is None,
    {
        TestRunner { runner: Runner::new() }
    }

    pub fn with_runner(runner: Runner) -> (r: Self)
        ensures
            r.runner() == runner,
    {
        TestRunner { runner }
    }

    pub closed spec fn runner(&self) -> Runner {
        self.runner
    }

    /// The runner the cases are run with.
    pub fn get_runner(&self) -> (r: &Runner)
        ensures
            *r == self.runner(),
    {
        &self.runner
    }

    /// Judges the runs of all cases, in order: `runs[i]` is how case `i` ran.
    /// A missing program is an error; every other case gets a result.
    pub fn run_tests(&self, tests: &Vec<TestCase>, runs: Vec<Result<RunOutput, PadaError>>) -> (r: Result<Vec<TestResult>, PadaError>)
        requires
            runs@.len() == tests@.len(),
        ensures
            match r {
                Ok(v) => v@.len() == tests@.len() && forall|i: int|
                    0 <= i < tests@.len() ==> judged_as(#[trigger] v@[i], tests@[i], runs@[i]),
                Err(e) => e matches PadaError::FileNotFound(m) && exists|i: int|
                    0 <= i < tests@.len() && judged(tests@[i], runs@[i]) == Err::<(bool, Seq<char>), Seq<char>>(m@)
                        && forall|j: int| 0 <= j < i ==> judged(tests@[j], runs@[j]) is Ok,
            },
    {
        let mut out: Vec<TestResult> = Vec::new();
        let mut pending = runs;
        let ghost all = pending@;
        let mut i: usize = 0;
        while i < tests.len()
            invariant
                i <= tests@.len(),
                all.len() == tests@.len(),
                all == runs@,
                pending@ == all.skip(i as int),
                out@.len() == i,
                forall|k: int| 0 <= k < i ==> judged_as(#[trigger] out@[k], tests@[k], all[k]),
            decreases tests.len() - i,
        {
            let run = pending.remove(0);
            assert(run == all[i as int]);
            assert(pending@ =~= all.skip(i + 1));
            match judge_run(&tests[i], run) {
                Ok(t) => {
                    out.push(t);
                },
                Err(e) => {
                    assert forall|j: int| 0 <= j < i implies judged(tests@[j], all[j]) is Ok by {
                        assert(judged_as(out@[j], tests@[j], all[j]));
                    }
                    return Err(e);
                },
            }
            i = i + 1;
        }
        Ok(out)
    }
}

} // verus!
