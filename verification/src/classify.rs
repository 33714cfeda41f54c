//! The classifier's configuration and its integer decision gates.

use vstd::prelude::*;

use crate::evidence::Weights;

verus! {

/// Integer admissibility thresholds of the Bayes classifier.  All are
/// non-negative and fixed once constructed; classification never mutates
/// them.  The companion threshold on per-token probability strength is a
/// floating-point quantity and belongs to the floating-point pipeline that
/// drives these gates.
#[derive(Clone, Copy, PartialEq, Eq, Structural, Debug)]
pub struct BayesClassifier {
    /// Minimum training-example count per class before classification is
    /// attempted; 0 disables the check.
    pub min_learns: u32,
    /// Minimum combined spam+ham occurrence count for a token to be
    /// considered.
    pub min_token_hits: u32,
    /// Minimum number of informative tokens, subject to a ten-percent
    /// tolerance.
    pub min_tokens: u32,
}

impl BayesClassifier {
    /// Both classes have seen enough training material, or the check is
    /// disabled.
    pub open spec fn spec_has_enough_learns(&self, ham_learns: u32, spam_learns: u32) -> bool {
        self.min_learns == 0 || (spam_learns >= self.min_learns && ham_learns >= self.min_learns)
    }

    /// Admissibility gate: classification is attempted only when `min_learns`
    /// is 0 or both classes have at least `min_learns` training examples.  A
    /// model trained on less data would produce an invalid tail-probability
    /// estimate, so the classifier abstains instead.
    pub fn has_enough_learns(&self, ham_learns: u32, spam_learns: u32) -> (r: bool)
        ensures
            r == self.spec_has_enough_learns(ham_learns, spam_learns),
    {
        !(self.min_learns > 0 && (spam_learns < self.min_learns || ham_learns < self.min_learns))
    }

    /// The token's combined occurrence count reaches `min_token_hits`.
    pub open spec fn spec_token_considered(&self, w: Weights) -> bool {
        w.spam + w.ham >= self.min_token_hits
    }

    /// Count gate: a token contributes evidence only when it was observed at
    /// least `min_token_hits` times in training material, both classes
    /// combined.
    pub fn token_considered(&self, w: &Weights) -> (r: bool)
        ensures
            r == self.spec_token_considered(*w),
    {
        w.spam as u64 + w.ham as u64 >= self.min_token_hits as u64
    }

    /// At least one informative token was processed, and not fewer than a
    /// tenth (rounded down) of `min_tokens` when that floor is set.
    pub open spec fn spec_enough_tokens(&self, processed: u32) -> bool {
        processed > 0 && !(self.min_tokens > 0 && processed < self.min_tokens / 10)
    }

    /// Sufficiency gate: with no informative tokens, or fewer than a tenth of
    /// `min_tokens` (rounded down), the statistical test would be unreliable
    /// however extreme the accumulated sums, so the classifier abstains.
    pub fn enough_tokens(&self, processed: u32) -> (r: bool)
        ensures
            r == self.spec_enough_tokens(processed),
    {
        !(processed == 0 || (self.min_tokens > 0 && processed < self.min_tokens / 10))
    }
}

/// Denominator floor for the per-class frequency estimates: a class with no
/// training examples divides by one instead of zero.
pub fn learn_floor(learns: u32) -> (f: u32)
    ensures
        f == (if learns == 0 { 1u32 } else { learns }),
        f >= 1,
{
    if learns == 0 {
        1
    } else {
        learns
    }
}

/// With no informative tokens processed the sufficiency gate abstains,
/// whatever the configuration: in particular, classifying an empty token
/// stream reaches no decision.
pub proof fn lemma_no_processed_tokens_abstains(c: BayesClassifier)
    ensures
        !c.spec_enough_tokens(0),
{
}

/// A minimum training count of zero disables the admissibility gate: the
/// classifier then proceeds whatever the training totals, and abstaining on
/// an empty token stream is forced by the sufficiency gate alone.
pub proof fn lemma_disabled_learns_gate_admits(c: BayesClassifier, ham_learns: u32, spam_learns: u32)
    requires
        c.min_learns == 0,
    ensures
        c.spec_has_enough_learns(ham_learns, spam_learns),
{
}

/// When a minimum training count is set and either class falls short of it,
/// the admissibility gate abstains, regardless of token content.
pub proof fn lemma_undertrained_abstains(c: BayesClassifier, ham_learns: u32, spam_learns: u32)
    requires
        c.min_learns > 0,
        spam_learns < c.min_learns || ham_learns < c.min_learns,
    ensures
        !c.spec_has_enough_learns(ham_learns, spam_learns),
{
}

/// The admissibility gate is symmetric in the two classes: swapping the two
/// training totals never changes whether classification is attempted.
pub proof fn lemma_learns_gate_symmetric(c: BayesClassifier, ham_learns: u32, spam_learns: u32)
    ensures
        c.spec_has_enough_learns(ham_learns, spam_learns) == c.spec_has_enough_learns(
            spam_learns,
            ham_learns,
        ),
{
}

/// A token never observed in training (both counts zero) is excluded by the
/// count gate whenever at least one occurrence is required.
pub proof fn lemma_unseen_token_excluded(c: BayesClassifier)
    requires
        c.min_token_hits >= 1,
    ensures
        !c.spec_token_considered((Weights { spam: 0, ham: 0 })),
{
}

/// A considered token carries a positive occurrence count on at least one
/// side whenever the count gate demands at least one hit, so the frequency
/// sum that divides the per-token probability estimates is nonzero.
pub proof fn lemma_considered_token_has_evidence(c: BayesClassifier, w: Weights)
    requires
        c.min_token_hits >= 1,
        c.spec_token_considered(w),
    ensures
        w.spam > 0 || w.ham > 0,
{
}

/// The count gate is symmetric in the two classes: swapping a token's spam
/// and ham counts never changes whether it is considered.
pub proof fn lemma_count_gate_symmetric(c: BayesClassifier, w: Weights)
    ensures
        c.spec_token_considered(w) == c.spec_token_considered(
            (Weights { spam: w.ham, ham: w.spam }),
        ),
{
}

} // verus!
