//! The engine loop over a rule set: rules are taken in their declared
//! order, one outcome is kept for each, and the first failure ends the run.

use crate::error::PatcherError;
use crate::rules::{
    apply_rule, apply_rule_spec, reason_matches, rules_view, ActionView, Found, FoundView,
    OutcomeKind, PatchAction, PatchOutcome, PatchRule, PatchRuleView,
};
use vstd::prelude::*;

verus! {

/// One run of the engine over a rule set: the rules, and the outcomes of
/// those that were applied so far.
#[derive(Debug)]
pub struct PatchRun {
    pub rules: Vec<PatchRule>,
    pub outcomes: Vec<PatchOutcome>,
}

/// The mathematical value of a [`PatchRun`]: the rules, and the kinds of
/// the outcomes so far.
pub struct PatchRunView {
    pub rules: Seq<PatchRuleView>,
    pub outcomes: Seq<OutcomeKind>,
}

/// The kinds of a list of outcomes, in order.
pub open spec fn outcome_kinds(outcomes: Seq<PatchOutcome>) -> Seq<OutcomeKind> {
    Seq::new(outcomes.len(), |i: int| outcomes[i].kind_spec())
}

impl View for PatchRun {
    type V = PatchRunView;

    open spec fn view(&self) -> PatchRunView {
        PatchRunView { rules: rules_view(self.rules@), outcomes: outcome_kinds(self.outcomes@) }
    }
}

/// The run has ended in a failure.
pub open spec fn halted_spec(run: PatchRunView) -> bool {
    run.outcomes.len() > 0 && run.outcomes.last() == OutcomeKind::Failed
}

/// The index of the rule to apply next: the one behind those that have an
/// outcome, unless the run has failed or no rule is left.
pub open spec fn pending_rule_spec(run: PatchRunView) -> Option<int> {
    if !halted_spec(run) && run.outcomes.len() < run.rules.len() {
        Some(run.outcomes.len() as int)
    } else {
        None
    }
}

/// The run after the pending rule is applied to what was found at its
/// target, and the action for the caller. Where no rule is pending the run
/// stays as it is and there is nothing to do.
pub open spec fn step_spec(run: PatchRunView, found: FoundView) -> (PatchRunView, ActionView) {
    match pending_rule_spec(run) {
        None => (run, ActionView::Nothing),
        Some(i) => {
            let (kind, action) = apply_rule_spec(run.rules[i], found);
            (PatchRunView { outcomes: run.outcomes.push(kind), ..run }, action)
        },
    }
}

/// The run over `rules` after one step for each entry of `found`, in
/// order.
pub open spec fn run_spec(rules: Seq<PatchRuleView>, found: Seq<FoundView>) -> PatchRunView
    decreases found.len(),
{
    if found.len() == 0 {
        PatchRunView { rules, outcomes: Seq::empty() }
    } else {
        step_spec(run_spec(rules, found.drop_last()), found.last()).0
    }
}

impl PatchRun {
    /// A run at its start.
    pub fn new(rules: Vec<PatchRule>) -> (r: PatchRun)
        ensures
            r@ == (PatchRunView { rules: rules_view(rules@), outcomes: Seq::empty() }),
    {
        let run = PatchRun { rules, outcomes: Vec::new() };
        proof {
            assert(run@.outcomes =~= Seq::empty());
        }
        run
    }

    /// Whether the run has ended in a failure.
    pub fn halted(&self) -> (r: bool)
        ensures
            r == halted_spec(self@),
    {
        let n = self.outcomes.len();
        if n == 0 {
            false
        } else {
            match &self.outcomes[n - 1] {
                PatchOutcome::Failed(_) => true,
                _ => false,
            }
        }
    }

    /// The index of the rule to apply next, if the run is not over.
    pub fn pending(&self) -> (r: Option<usize>)
        ensures
            match r {
                Some(i) => pending_rule_spec(self@) == Some(i as int) && i < self.rules@.len(),
                None => pending_rule_spec(self@).is_none(),
            },
    {
        if !self.halted() && self.outcomes.len() < self.rules.len() {
            Some(self.outcomes.len())
        } else {
            None
        }
    }

    /// Applies the pending rule to what the caller found at its target,
    /// keeps the outcome, and returns the action for the caller.
    pub fn step(&mut self, found: &Found) -> (r: PatchAction)
        ensures
            (final(self)@, r@) == step_spec(old(self)@, found@),
            final(self).rules == old(self).rules,
            pending_rule_spec(old(self)@) is Some ==> final(self).outcomes@.drop_last() == old(
                self,
            ).outcomes@ && reason_matches(
                final(self).outcomes@.last(),
                old(self)@.rules[old(self).outcomes@.len() as int],
                found@,
            ),
            pending_rule_spec(old(self)@).is_none() ==> final(self).outcomes == old(self).outcomes,
    {
        match self.pending() {
            None => PatchAction::Nothing,
            Some(i) => {
                let ghost before = self@.outcomes;
                let result = apply_rule(&self.rules[i], found);
                self.outcomes.push(result.outcome);
                proof {
                    assert(self@.outcomes =~= before.push(result.outcome.kind_spec()));
                    assert(self.outcomes@.drop_last() =~= old(self).outcomes@);
                }
                result.action
            },
        }
    }

    /// The detail of the error of a failed run: the target of the rule that
    /// failed, then the reason. A failure that stands behind the last rule
    /// has no target to name.
    pub open spec fn failure_detail_spec(self) -> Seq<char> {
        let n = self.outcomes@.len();
        let target = if n <= self.rules@.len() {
            self.rules@[n - 1].target@
        } else {
            Seq::empty()
        };
        let reason = match self.outcomes@[n - 1] {
            PatchOutcome::Failed(reason) => reason@,
            _ => Seq::empty(),
        };
        target + ": "@ + reason
    }

    /// Ends the run. A run that failed gives a patch error that names the
    /// target and the reason; any other gives the outcomes in the order of
    /// the rules.
    pub fn conclude(self) -> (r: Result<Vec<PatchOutcome>, PatcherError>)
        ensures
            match r {
                Ok(outcomes) => !halted_spec(self@) && outcomes == self.outcomes,
                Err(e) => halted_spec(self@) && e is PatchError && e.detail_spec()
                    == self.failure_detail_spec(),
            },
    {
        if self.halted() {
            let n = self.outcomes.len();
            let mut text: String = if n <= self.rules.len() {
                self.rules[n - 1].target.clone()
            } else {
                String::new()
            };
            text.append(": ");
            match &self.outcomes[n - 1] {
                PatchOutcome::Failed(reason) => text.append(reason.as_str()),
                _ => {},
            }
            Err(PatcherError::PatchError(text))
        } else {
            Ok(self.outcomes)
        }
    }
}

/// Rules are applied in their declared order and the first failure is
/// fatal: after a step for each entry of `found`, the outcome at each
/// index is what the rule at that index makes of the entry at that index,
/// no outcome before the last is a failure, and rules are left over only
/// where the run has failed.
pub proof fn lemma_run_in_order(rules: Seq<PatchRuleView>, found: Seq<FoundView>)
    requires
        found.len() <= rules.len(),
    ensures
        run_spec(rules, found).rules == rules,
        run_spec(rules, found).outcomes.len() <= found.len(),
        forall|i: int|
            0 <= i < run_spec(rules, found).outcomes.len() ==> #[trigger] run_spec(
                rules,
                found,
            ).outcomes[i] == apply_rule_spec(rules[i], found[i]).0,
        forall|i: int|
            0 <= i < run_spec(rules, found).outcomes.len() - 1 ==> #[trigger] run_spec(
                rules,
                found,
            ).outcomes[i] != OutcomeKind::Failed,
        run_spec(rules, found).outcomes.len() < found.len() ==> halted_spec(run_spec(rules, found)),
    decreases found.len(),
{
    if found.len() > 0 {
        let init = found.drop_last();
        lemma_run_in_order(rules, init);
        let before = run_spec(rules, init);
        let after = run_spec(rules, found);
        assert(after == step_spec(before, found.last()).0);
        assert forall|i: int| 0 <= i < after.outcomes.len() implies #[trigger] after.outcomes[i]
            == apply_rule_spec(rules[i], found[i]).0 by {
            if i < before.outcomes.len() {
                assert(after.outcomes[i] == before.outcomes[i]);
                assert(init[i] == found[i]);
            }
        }
        assert forall|i: int| 0 <= i < after.outcomes.len() - 1 implies #[trigger] after.outcomes[i]
            != OutcomeKind::Failed by {
            assert(after.outcomes[i] == before.outcomes[i]);
        }
    }
}

} // verus!
