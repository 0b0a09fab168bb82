//! Effort modes: how deep the agent looks, how many model calls it may make,
//! how much source it shows the model, and whether tests run.
use crate::models::HintLevel;
use crate::text::{chars_of, decimal, eq_str, lower_seq, push_decimal, push_str, to_ascii_lower, trim, trim_spec};
use vstd::prelude::*;

verus! {

/// What a model call is for; it only affects reasoning strength and output limits.
#[derive(Debug, Clone, Copy, PartialEq, Eq, Structural)]
pub enum ModelTaskKind {
    General,
    KnowledgeMapping,
    Hint(HintLevel),
    TestGeneration,
    HintBatch { level: HintLevel, count: usize },
}

impl Default for ModelTaskKind {
    fn default() -> (r: Self)
        ensures
            r == ModelTaskKind::General,
    {
        ModelTaskKind::General
    }
}

/// Effort modes; `Medium` is the default.
#[derive(Debug, Clone, Copy, PartialEq, Eq, Structural, Hash)]
pub enum EffortMode {
    Auto,
    Low,
    Medium,
    High,
    Xhigh,
    Max,
}

impl Default for EffortMode {
    fn default() -> (r: Self)
        ensures
            r == EffortMode::Medium,
    {
        EffortMode::Medium
    }
}

pub open spec fn mode_name_spec(mode: EffortMode) -> Seq<char> {
    match mode {
        EffortMode::Auto => "auto"@,
        EffortMode::Low => "low"@,
        EffortMode::Medium => "medium"@,
        EffortMode::High => "high"@,
        EffortMode::Xhigh => "xhigh"@,
        EffortMode::Max => "max"@,
    }
}

/// `EffortMode::from_str`: the trimmed, ASCII-lower-cased name of a mode.
pub open spec fn parse_mode_spec(value: Seq<char>) -> Option<EffortMode> {
    let v = lower_seq(trim_spec(value));
    if v == "auto"@ {
        Some(EffortMode::Auto)
    } else if v == "low"@ {
        Some(EffortMode::Low)
    } else if v == "medium"@ {
        Some(EffortMode::Medium)
    } else if v == "high"@ {
        Some(EffortMode::High)
    } else if v == "xhigh"@ {
        Some(EffortMode::Xhigh)
    } else if v == "max"@ {
        Some(EffortMode::Max)
    } else {
        None
    }
}

pub open spec fn invalid_mode_message(value: Seq<char>) -> Seq<char> {
    "无效思考模式「"@ + value + "」；可选 auto/low/medium/high/xhigh/max"@
}

/// Signals of how complex a diagnosis is, used by `Auto`.
#[derive(Debug, Clone, Copy, PartialEq, Eq, Structural)]
pub struct EffortSignals {
    pub error_count: usize,
    pub file_count: usize,
    pub failed_tests: usize,
    pub has_runtime_error: bool,
    pub source_bytes: usize,
}

impl Default for EffortSignals {
    fn default() -> (r: Self)
        ensures
            r == (EffortSignals {
                error_count: 0,
                file_count: 0,
                failed_tests: 0,
                has_runtime_error: false,
                source_bytes: 0,
            }),
    {
        EffortSignals {
            error_count: 0,
            file_count: 0,
            failed_tests: 0,
            has_runtime_error: false,
            source_bytes: 0,
        }
    }
}

/// The complexity score of a set of signals.
pub open spec fn score_spec(s: EffortSignals) -> nat {
    let e: nat = if s.error_count <= 1 {
        s.error_count as nat
    } else if s.error_count <= 4 {
        2
    } else {
        3
    };
    let f: nat = if s.file_count <= 1 {
        0
    } else if s.file_count <= 10 {
        1
    } else if s.file_count <= 40 {
        2
    } else {
        3
    };
    let t: nat = if s.failed_tests == 0 {
        0
    } else if s.failed_tests <= 2 {
        2
    } else {
        3
    };
    let r: nat = if s.has_runtime_error {
        1
    } else {
        0
    };
    let b: nat = if s.source_bytes <= 65_536 {
        0
    } else if s.source_bytes <= 262_144 {
        1
    } else {
        2
    };
    e + f + t + r + b
}

/// The mode `Auto` resolves to for a score.
pub open spec fn mode_for_score(score: nat) -> EffortMode {
    if score <= 1 {
        EffortMode::Low
    } else if score <= 3 {
        EffortMode::Medium
    } else if score <= 5 {
        EffortMode::High
    } else if score <= 7 {
        EffortMode::Xhigh
    } else {
        EffortMode::Max
    }
}

/// The depth of a concrete mode, from `Low` (1) to `Max` (5).
pub open spec fn mode_rank(mode: EffortMode) -> nat {
    match mode {
        EffortMode::Auto => 0,
        EffortMode::Low => 1,
        EffortMode::Medium => 2,
        EffortMode::High => 3,
        EffortMode::Xhigh => 4,
        EffortMode::Max => 5,
    }
}

/// How much source a model call sees.
#[derive(Debug, Clone, Copy, PartialEq, Eq, Structural)]
pub struct SourceScope {
    pub max_files: usize,
    pub context_lines: usize,
    pub max_bytes: usize,
}

/// The concrete settings of an effort mode.
#[derive(Debug, Clone, Copy, PartialEq, Eq)]
pub struct EffortPolicy {
    pub mode: EffortMode,
    pub reasoning_effort: &'static str,
    pub max_model_calls: usize,
    pub source: SourceScope,
    pub run_tests: bool,
    pub verification_passes: u8,
}

/// The contents of an [`EffortPolicy`].
pub struct PolicyView {
    pub mode: EffortMode,
    pub reasoning_effort: Seq<char>,
    pub max_model_calls: usize,
    pub source: SourceScope,
    pub run_tests: bool,
    pub verification_passes: u8,
}

impl View for EffortPolicy {
    type V = PolicyView;

    open spec fn view(&self) -> PolicyView {
        PolicyView {
            mode: self.mode,
            reasoning_effort: self.reasoning_effort@,
            max_model_calls: self.max_model_calls,
            source: self.source,
            run_tests: self.run_tests,
            verification_passes: self.verification_passes,
        }
    }
}

pub open spec fn policy_spec(
    mode: EffortMode,
    effort: Seq<char>,
    calls: usize,
    files: usize,
    lines: usize,
    bytes: usize,
    run_tests: bool,
    passes: u8,
) -> PolicyView {
    PolicyView {
        mode,
        reasoning_effort: effort,
        max_model_calls: calls,
        source: SourceScope { max_files: files, context_lines: lines, max_bytes: bytes },
        run_tests,
        verification_passes: passes,
    }
}

/// The settings of each mode; `Auto` uses those of `Medium`.
pub open spec fn for_mode_spec(mode: EffortMode) -> PolicyView {
    match mode {
        EffortMode::Auto => policy_spec(EffortMode::Medium, "medium"@, 4, 12, 41, 65536, true, 0),
        EffortMode::Low => policy_spec(EffortMode::Low, "low"@, 1, 2, 21, 16384, false, 0),
        EffortMode::Medium => policy_spec(EffortMode::Medium, "medium"@, 4, 12, 41, 65536, true, 0),
        EffortMode::High => policy_spec(EffortMode::High, "high"@, 8, 32, 81, 196608, true, 1),
        EffortMode::Xhigh => policy_spec(EffortMode::Xhigh, "xhigh"@, 16, 96, 161, 524288, true, 1),
        EffortMode::Max => policy_spec(
            EffortMode::Max,
            "xhigh"@,
            32,
            usize::MAX,
            usize::MAX,
            2097152,
            true,
            2,
        ),
    }
}

/// What `resolve` gives: a concrete mode's own settings, or for `Auto` the
/// settings of the mode that the complexity score selects.
pub open spec fn resolve_spec(mode: EffortMode, signals: EffortSignals) -> PolicyView {
    if mode != EffortMode::Auto {
        for_mode_spec(mode)
    } else {
        for_mode_spec(mode_for_score(score_spec(signals)))
    }
}

impl EffortMode {
    /// The name of the mode as shown and parsed (`auto`, `low`, ...).
    pub fn as_str(&self) -> (r: &'static str)
        ensures
            r@ == mode_name_spec(*self),
    {
        match self {
            EffortMode::Auto => "auto",
            EffortMode::Low => "low",
            EffortMode::Medium => "medium",
            EffortMode::High => "high",
            EffortMode::Xhigh => "xhigh",
            EffortMode::Max => "max",
        }
    }

    /// All modes, in order of depth.
    pub fn all() -> (r: [EffortMode; 6])
        ensures
            r@ == seq![
                EffortMode::Auto,
                EffortMode::Low,
                EffortMode::Medium,
                EffortMode::High,
                EffortMode::Xhigh,
                EffortMode::Max,
            ],
    {
        let r = [
            EffortMode::Auto,
            EffortMode::Low,
            EffortMode::Medium,
            EffortMode::High,
            EffortMode::Xhigh,
            EffortMode::Max,
        ];
        assert(r@ =~= seq![
            EffortMode::Auto,
            EffortMode::Low,
            EffortMode::Medium,
            EffortMode::High,
            EffortMode::Xhigh,
            EffortMode::Max,
        ]);
        r
    }

    /// Parses a mode name, ignoring surrounding white space and ASCII case.
    pub fn parse(value: &str) -> (r: Result<EffortMode, String>)
        ensures
            match r {
                Ok(m) => parse_mode_spec(value@) == Some(m),
                Err(e) => parse_mode_spec(value@) is None && e@ == invalid_mode_message(value@),
            },
    {
        let raw = chars_of(value);
        let t = trim(&raw);
        let v = to_ascii_lower(&t);
        if eq_str(&v, "auto") {
            Ok(EffortMode::Auto)
        } else if eq_str(&v, "low") {
            Ok(EffortMode::Low)
        } else if eq_str(&v, "medium") {
            Ok(EffortMode::Medium)
        } else if eq_str(&v, "high") {
            Ok(EffortMode::High)
        } else if eq_str(&v, "xhigh") {
            Ok(EffortMode::Xhigh)
        } else if eq_str(&v, "max") {
            Ok(EffortMode::Max)
        } else {
            let mut e = String::new();
            push_str(&mut e, "无效思考模式「");
            push_str(&mut e, value);
            push_str(&mut e, "」；可选 auto/low/medium/high/xhigh/max");
            assert(e@ =~= invalid_mode_message(value@));
            Err(e)
        }
    }

    /// The policy used before any complexity signal is known; `Auto` probes with `Medium`.
    pub fn initial_policy(self) -> (r: EffortPolicy)
        ensures
            r@ == for_mode_spec(self),
    {
        match self {
            EffortMode::Auto => EffortPolicy::for_mode(EffortMode::Medium),
            mode => EffortPolicy::for_mode(mode),
        }
    }

    /// The policy for this mode; `Auto` scores the signals and picks a mode.
    pub fn resolve(self, signals: EffortSignals) -> (r: EffortPolicy)
        ensures
            r@ == resolve_spec(self, signals),
    {
        if self != EffortMode::Auto {
            return EffortPolicy::for_mode(self);
        }
        let mut score: u8 = 0;
        score = score + if signals.error_count <= 1 {
            signals.error_count as u8
        } else if signals.error_count <= 4 {
            2
        } else {
            3
        };
        score = score + if signals.file_count <= 1 {
            0
        } else if signals.file_count <= 10 {
            1
        } else if signals.file_count <= 40 {
            2
        } else {
            3
        };
        score = score + if signals.failed_tests == 0 {
            0
        } else if signals.failed_tests <= 2 {
            2
        } else {
            3
        };
        score = score + if signals.has_runtime_error {
            1
        } else {
            0
        };
        score = score + if signals.source_bytes <= 65_536 {
            0
        } else if signals.source_bytes <= 262_144 {
            1
        } else {
            2
        };
        assert(score == score_spec(signals));
        let mode = if score <= 1 {
            EffortMode::Low
        } else if score <= 3 {
            EffortMode::Medium
        } else if score <= 5 {
            EffortMode::High
        } else if score <= 7 {
            EffortMode::Xhigh
        } else {
            EffortMode::Max
        };
        EffortPolicy::for_mode(mode)
    }
}

/// A concrete mode ignores the signals: resolving it always gives its own settings.
pub proof fn law_concrete_mode_ignores_signals(mode: EffortMode, a: EffortSignals, b: EffortSignals)
    requires
        mode != EffortMode::Auto,
    ensures
        resolve_spec(mode, a) == resolve_spec(mode, b),
        resolve_spec(mode, a) == for_mode_spec(mode),
{
}

/// `Auto` starts out with the settings of `Medium`.
pub proof fn law_auto_probes_with_medium()
    ensures
        for_mode_spec(EffortMode::Auto) == for_mode_spec(EffortMode::Medium),
{
}

/// Under `Auto`, more complex signals never select a shallower mode.
pub proof fn law_auto_is_monotone(a: EffortSignals, b: EffortSignals)
    requires
        a.error_count <= b.error_count,
        a.file_count <= b.file_count,
        a.failed_tests <= b.failed_tests,
        a.has_runtime_error ==> b.has_runtime_error,
        a.source_bytes <= b.source_bytes,
    ensures
        mode_rank(resolve_spec(EffortMode::Auto, a).mode) <= mode_rank(
            resolve_spec(EffortMode::Auto, b).mode,
        ),
        score_spec(a) <= score_spec(b),
{
}

impl EffortPolicy {
    /// The settings of a mode.
    pub fn for_mode(mode: EffortMode) -> (r: Self)
        ensures
            r@ == for_mode_spec(mode),
    {
        match mode {
            EffortMode::Auto => EffortPolicy::new(EffortMode::Medium, "medium", 4, 12, 41, 64 * 1024, true, 0),
            EffortMode::Low => EffortPolicy::new(mode, "low", 1, 2, 21, 16 * 1024, false, 0),
            EffortMode::Medium => EffortPolicy::new(mode, "medium", 4, 12, 41, 64 * 1024, true, 0),
            EffortMode::High => EffortPolicy::new(mode, "high", 8, 32, 81, 192 * 1024, true, 1),
            EffortMode::Xhigh => EffortPolicy::new(mode, "xhigh", 16, 96, 161, 512 * 1024, true, 1),
            EffortMode::Max => EffortPolicy::new(
                mode,
                "xhigh",
                32,
                usize::MAX,
                usize::MAX,
                2 * 1024 * 1024,
                true,
                2,
            ),
        }
    }

    pub fn new(
        mode: EffortMode,
        reasoning_effort: &'static str,
        max_model_calls: usize,
        max_files: usize,
        context_lines: usize,
        max_bytes: usize,
        run_tests: bool,
        verification_passes: u8,
    ) -> (r: Self)
        ensures
            r@ == policy_spec(
                mode,
                reasoning_effort@,
                max_model_calls,
                max_files,
                context_lines,
                max_bytes,
                run_tests,
                verification_passes,
            ),
    {
        EffortPolicy {
            mode,
            reasoning_effort,
            max_model_calls,
            source: SourceScope { max_files, context_lines, max_bytes },
            run_tests,
            verification_passes,
        }
    }

    /// One line describing the policy.
    pub fn summary(self) -> (r: String)
        ensures
            r@ == summary_spec(self@),
    {
        let mut s = String::new();
        push_str(&mut s, self.mode.as_str());
        push_str(&mut s, "：推理基准=");
        push_str(&mut s, self.reasoning_effort);
        push_str(&mut s, "（按接口/任务适配），模型调用≤");
        push_decimal(&mut s, self.max_model_calls as u64);
        push_str(&mut s, "，源码≤");
        if self.source.max_files == usize::MAX {
            push_str(&mut s, "全部");
        } else {
            push_decimal(&mut s, self.source.max_files as u64);
        }
        push_str(&mut s, " 文件/");
        if self.source.context_lines == usize::MAX {
            push_str(&mut s, "全部行");
        } else {
            push_decimal(&mut s, self.source.context_lines as u64);
            push_str(&mut s, " 行窗口");
        }
        push_str(&mut s, "，测试=");
        if self.run_tests {
            push_str(&mut s, "开启");
        } else {
            push_str(&mut s, "关闭");
        }
        push_str(&mut s, "，二次验证=");
        push_decimal(&mut s, self.verification_passes as u64);
        push_str(&mut s, " 次");
        assert(s@ =~= summary_spec(self@));
        s
    }
}

pub open spec fn summary_spec(p: PolicyView) -> Seq<char> {
    mode_name_spec(p.mode) + "：推理基准="@ + p.reasoning_effort + "（按接口/任务适配），模型调用≤"@
        + decimal(p.max_model_calls as nat) + "，源码≤"@ + (if p.source.max_files == usize::MAX {
        "全部"@
    } else {
        decimal(p.source.max_files as nat)
    }) + " 文件/"@ + (if p.source.context_lines == usize::MAX {
        "全部行"@
    } else {
        decimal(p.source.context_lines as nat) + " 行窗口"@
    }) + "，测试="@ + (if p.run_tests {
        "开启"@
    } else {
        "关闭"@
    }) + "，二次验证="@ + decimal(p.verification_passes as nat) + " 次"@
}

/// A budget of model calls for one diagnosis round.
#[derive(Debug)]
pub struct ModelCallBudget {
    limit: usize,
    used: usize,
}

/// Calls taken after one more attempt to take a call, with `used` taken of `limit`.
pub open spec fn after_take(used: nat, limit: nat) -> nat {
    if used < limit {
        used + 1
    } else {
        used
    }
}

/// Calls taken after `k` attempts on a fresh budget of `limit` calls.
pub open spec fn used_after_takes(limit: nat, k: nat) -> nat
    decreases k,
{
    if k == 0 {
        0
    } else {
        after_take(used_after_takes(limit, (k - 1) as nat), limit)
    }
}

impl ModelCallBudget {
    #[verifier::type_invariant]
    spec fn within_limit(self) -> bool {
        self.used <= self.limit
    }

    pub closed spec fn limit_spec(&self) -> usize {
        self.limit
    }

    pub closed spec fn used_spec(&self) -> usize {
        self.used
    }

    /// The count of calls taken never exceeds the limit.
    pub open spec fn wf(&self) -> bool {
        self.used_spec() <= self.limit_spec()
    }

    /// A fresh budget with the policy's limit and no call taken.
    pub fn new(policy: EffortPolicy) -> (r: Self)
        ensures
            r.wf(),
            r.limit_spec() == policy.max_model_calls,
            r.used_spec() == 0,
    {
        ModelCallBudget { limit: policy.max_model_calls, used: 0 }
    }

    /// Takes one call if any is left.
    pub fn try_take(&mut self) -> (r: bool)
        ensures
            old(self).wf(),
            final(self).wf(),
            final(self).limit_spec() == old(self).limit_spec(),
            r == (old(self).used_spec() < old(self).limit_spec()),
            final(self).used_spec() == after_take(old(self).used_spec() as nat, old(self).limit_spec() as nat),
    {
        proof {
            use_type_invariant(&*self);
        }
        if self.used >= self.limit {
            return false;
        }
        self.used = self.used + 1;
        true
    }

    /// Calls taken so far.
    pub fn used(&self) -> (r: usize)
        ensures
            r == self.used_spec(),
            self.wf(),
    {
        proof {
            use_type_invariant(self);
        }
        self.used
    }

    /// Calls left.
    pub fn remaining(&self) -> (r: usize)
        ensures
            r == self.limit_spec() - self.used_spec(),
            self.wf(),
    {
        proof {
            use_type_invariant(self);
        }
        self.limit - self.used
    }
}

/// A fresh budget of `limit` calls, after `k` attempts to take a call
/// (`try_take` moves the count by `after_take`), has taken `min(k, limit)`
/// calls: never more than the limit, and the next attempt succeeds exactly
/// while `k < limit`.
pub proof fn law_budget_accounts_for_every_call(limit: nat, k: nat)
    ensures
        used_after_takes(limit, k) == if k < limit {
            k
        } else {
            limit
        },
        used_after_takes(limit, k) <= limit,
        (used_after_takes(limit, k) < limit) == (k < limit),
    decreases k,
{
    if k > 0 {
        law_budget_accounts_for_every_call(limit, (k - 1) as nat);
    }
}

impl std::str::FromStr for EffortMode {
    type Err = String;

    fn from_str(value: &str) -> (r: Result<Self, Self::Err>)
        ensures
            match r {
                Ok(m) => parse_mode_spec(value@) == Some(m),
                Err(e) => parse_mode_spec(value@) is None && e@ == invalid_mode_message(value@),
            },
    {
        EffortMode::parse(value)
    }
}

} // verus!
