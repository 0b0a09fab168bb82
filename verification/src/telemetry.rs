//! Token accounting and budgets: tokens are counted from the service's usage
//! reports, and a budget that is reached blocks further model calls.
use vstd::prelude::*;

verus! {

/// The token counts and budgets of a session and of the history before it.
pub struct LedgerView {
    pub session_input: nat,
    pub session_output: nat,
    pub history_input: nat,
    pub history_output: nat,
    pub session_budget: Option<nat>,
    pub period_budget: Option<nat>,
}

/// Whether another model call is allowed: the session has used less than its
/// budget, and history plus session less than the period budget.
pub open spec fn within_budget(l: LedgerView) -> bool {
    let session = l.session_input + l.session_output;
    &&& match l.session_budget {
        Some(b) => session < b,
        None => true,
    }
    &&& match l.period_budget {
        Some(b) => l.history_input + l.history_output + session < b,
        None => true,
    }
}

/// Token counts of the current session and of the history, with budgets.
#[derive(Debug, Clone)]
pub struct TokenLedger {
    session_input: usize,
    session_output: usize,
    history_input: usize,
    history_output: usize,
    session_budget: Option<usize>,
    period_budget: Option<usize>,
}

pub open spec fn opt_nat(o: Option<usize>) -> Option<nat> {
    match o {
        Some(v) => Some(v as nat),
        None => None,
    }
}

impl View for TokenLedger {
    type V = LedgerView;

    closed spec fn view(&self) -> LedgerView {
        LedgerView {
            session_input: self.session_input as nat,
            session_output: self.session_output as nat,
            history_input: self.history_input as nat,
            history_output: self.history_output as nat,
            session_budget: opt_nat(self.session_budget),
            period_budget: opt_nat(self.period_budget),
        }
    }
}

impl TokenLedger {
    /// Nothing used and no budget.
    pub fn new() -> (r: Self)
        ensures
            r@ == (LedgerView {
                session_input: 0,
                session_output: 0,
                history_input: 0,
                history_output: 0,
                session_budget: None,
                period_budget: None,
            }),
    {
        TokenLedger {
            session_input: 0,
            session_output: 0,
            history_input: 0,
            history_output: 0,
            session_budget: None,
            period_budget: None,
        }
    }

    /// A ledger that starts from the given history totals.
    pub fn with_history(input: usize, output: usize) -> (r: Self)
        ensures
            r@ == (LedgerView {
                session_input: 0,
                session_output: 0,
                history_input: input as nat,
                history_output: output as nat,
                session_budget: None,
                period_budget: None,
            }),
    {
        TokenLedger {
            session_input: 0,
            session_output: 0,
            history_input: input,
            history_output: output,
            session_budget: None,
            period_budget: None,
        }
    }

    pub fn set_session_budget(&mut self, tokens: usize)
        ensures
            final(self)@ == (LedgerView { session_budget: Some(tokens as nat), ..old(self)@ }),
    {
        self.session_budget = Some(tokens);
    }

    pub fn set_period_budget(&mut self, tokens: usize)
        ensures
            final(self)@ == (LedgerView { period_budget: Some(tokens as nat), ..old(self)@ }),
    {
        self.period_budget = Some(tokens);
    }

    /// Whether adding these counts to the session stays within machine limits.
    pub fn can_record(&self, input: usize, output: usize) -> (r: bool)
        ensures
            r == (self@.session_input + input <= usize::MAX && self@.session_output + output
                <= usize::MAX),
    {
        input <= usize::MAX - self.session_input && output <= usize::MAX - self.session_output
    }

    /// Adds the usage of one model call to the session.
    pub fn record(&mut self, input: usize, output: usize)
        requires
            old(self)@.session_input + input <= usize::MAX,
            old(self)@.session_output + output <= usize::MAX,
        ensures
            final(self)@ == (LedgerView {
                session_input: old(self)@.session_input + input as nat,
                session_output: old(self)@.session_output + output as nat,
                ..old(self)@
            }),
    {
        self.session_input = self.session_input + input;
        self.session_output = self.session_output + output;
    }

    /// Whether another model call is allowed.
    pub fn check_budget(&self) -> (r: bool)
        ensures
            r == within_budget(self@),
    {
        let session: u128 = self.session_input as u128 + self.session_output as u128;
        if let Some(b) = self.session_budget {
            if session >= b as u128 {
                return false;
            }
        }
        if let Some(b) = self.period_budget {
            let used: u128 = self.history_input as u128 + self.history_output as u128 + session;
            if used >= b as u128 {
                return false;
            }
        }
        true
    }

    pub fn session_input(&self) -> (r: usize)
        ensures
            r == self@.session_input,
    {
        self.session_input
    }

    pub fn session_output(&self) -> (r: usize)
        ensures
            r == self@.session_output,
    {
        self.session_output
    }

    pub fn history_input(&self) -> (r: usize)
        ensures
            r == self@.history_input,
    {
        self.history_input
    }

    pub fn history_output(&self) -> (r: usize)
        ensures
            r == self@.history_output,
    {
        self.history_output
    }

    pub fn session_budget(&self) -> (r: Option<usize>)
        ensures
            opt_nat(r) == self@.session_budget,
    {
        self.session_budget
    }

    /// Adds the session's counts to the history.
    pub fn merge_session_to_history(&mut self)
        requires
            old(self)@.history_input + old(self)@.session_input <= usize::MAX,
            old(self)@.history_output + old(self)@.session_output <= usize::MAX,
        ensures
            final(self)@ == (LedgerView {
                history_input: old(self)@.history_input + old(self)@.session_input,
                history_output: old(self)@.history_output + old(self)@.session_output,
                ..old(self)@
            }),
    {
        self.history_input = self.history_input + self.session_input;
        self.history_output = self.history_output + self.session_output;
    }
}

/// A budget that is reached stays reached: recording more usage never allows
/// a call that was blocked.
pub proof fn law_exhausted_budget_stays_exhausted(l: LedgerView, input: nat, output: nat)
    requires
        !within_budget(l),
    ensures
        !within_budget(
            LedgerView {
                session_input: l.session_input + input,
                session_output: l.session_output + output,
                ..l
            },
        ),
{
}

/// Within a session budget, the budget allows calls exactly while fewer
/// tokens than the budget have been used (with no period budget).
pub proof fn law_session_budget_threshold(l: LedgerView, b: nat)
    requires
        l.session_budget == Some(b),
        l.period_budget is None,
    ensures
        within_budget(l) <==> l.session_input + l.session_output < b,
{
}

} // verus!
