//! Events that the learning profile records, and the clock it reads.
use crate::models::{point_name_spec, KnowledgePoint};
use crate::text::{push_str, string_from};
use vstd::prelude::*;

verus! {

/// One piece of evidence about a knowledge point.
#[derive(Debug, Clone, Copy, PartialEq, Eq)]
pub enum MasteryEvent {
    /// A diagnosis in which the point was involved, and whether the submission passed.
    Diagnostic { passed: bool, timestamp: u64 },
    /// The user's own report of whether they understood.
    UserFeedback { understood: bool, timestamp: u64 },
}

impl MasteryEvent {
    pub open spec fn timestamp_spec(self) -> u64 {
        match self {
            MasteryEvent::Diagnostic { timestamp, .. } => timestamp,
            MasteryEvent::UserFeedback { timestamp, .. } => timestamp,
        }
    }

    /// When the event happened, in Unix seconds.
    pub fn timestamp(&self) -> (r: u64)
        ensures
            r == self.timestamp_spec(),
    {
        match self {
            MasteryEvent::Diagnostic { timestamp, .. } => *timestamp,
            MasteryEvent::UserFeedback { timestamp, .. } => *timestamp,
        }
    }
}

/// A point in time of the system clock, carried opaquely.
#[verifier::external_type_specification]
#[verifier::external_body]
pub struct ExSystemTime(std::time::SystemTime);

/// `SystemTime::now`: the clock's current time. It depends on the clock, so
/// nothing is stated of it.
#[verifier::external_body]
fn clock_now() -> (r: std::time::SystemTime) {
    std::time::SystemTime::now()
}

/// `SystemTime::duration_since(UNIX_EPOCH)`, with its error (a time before the
/// epoch) as `None`. Nothing is stated of the duration.
#[verifier::external_body]
fn since_epoch(t: &std::time::SystemTime) -> (r: Option<core::time::Duration>) {
    t.duration_since(std::time::UNIX_EPOCH).ok()
}

/// `Duration::as_secs`: the whole seconds of a duration, which Verus cannot
/// see inside, so nothing is stated of them.
#[verifier::external_body]
fn whole_seconds(d: &core::time::Duration) -> (r: u64) {
    d.as_secs()
}

/// The current Unix time in seconds, or 0 when the clock is before the epoch.
/// It depends on the clock, so nothing is stated of it.
pub fn now_timestamp() -> (r: u64) {
    let now = clock_now();
    match since_epoch(&now) {
        Some(d) => whole_seconds(&d),
        None => 0,
    }
}

/// The evidence key of a point a submission failed to compile on: the same
/// submission counts once however often it is diagnosed.
pub fn compile_evidence_key(submission_key: &str, point: KnowledgePoint) -> (r: String)
    ensures
        r@ == submission_key@ + ":"@ + point_name_spec(point) + ":failed"@,
{
    let mut s = string_from(submission_key);
    push_str(&mut s, ":");
    push_str(&mut s, point.name());
    push_str(&mut s, ":failed");
    s
}

/// The evidence key of a point a submission failed tests on, for one test
/// suite.
pub fn test_evidence_key(submission_key: &str, suite_key: &str, point: KnowledgePoint) -> (r: String)
    ensures
        r@ == submission_key@ + ":"@ + suite_key@ + ":test:"@ + point_name_spec(point) + ":failed"@,
{
    let mut s = string_from(submission_key);
    push_str(&mut s, ":");
    push_str(&mut s, suite_key);
    push_str(&mut s, ":test:");
    push_str(&mut s, point.name());
    push_str(&mut s, ":failed");
    s
}

} // verus!
