//! Per-token evidence: occurrence counts and the feature-weight table.

use vstd::prelude::*;

verus! {

/// Number of distinct structural feature shapes a token may carry; a token's
/// feature index must lie below this bound.
pub const FEATURE_SHAPES: usize = 8;

/// Training evidence behind one token: how many times this exact feature
/// shape was observed in spam-labelled and in ham-labelled material.
#[derive(Clone, Copy, PartialEq, Eq, Structural, Debug)]
pub struct Weights {
    /// Occurrences in spam-labelled training material.
    pub spam: u32,
    /// Occurrences in ham-labelled training material.
    pub ham: u32,
}

impl Weights {
    /// Combined number of training occurrences behind this token.
    pub fn total_count(&self) -> (t: u64)
        ensures
            t == self.spam + self.ham,
    {
        self.spam as u64 + self.ham as u64
    }

    /// The mirror image of this evidence: the spam and ham counts swapped.
    pub fn swapped(&self) -> (s: Weights)
        ensures
            s.spam == self.ham,
            s.ham == self.spam,
    {
        Weights { spam: self.ham, ham: self.spam }
    }
}

/// One token of evidence: a feature-shape index and its occurrence pair.
#[derive(Clone, Copy, PartialEq, Eq, Structural, Debug)]
pub struct OsbToken {
    /// Index of the token's structural shape, in `[0, FEATURE_SHAPES)`:
    /// 0 is a plain unigram, later indices are sparse n-gram spans.
    pub idx: usize,
    /// The occurrence counts observed for this shape.
    pub inner: Weights,
}

impl OsbToken {
    /// A token is well formed when its feature index selects one of the
    /// `FEATURE_SHAPES` calibration weights.  An index out of range is a
    /// contract violation by the token producer, not a data condition.
    pub open spec fn well_formed(&self) -> bool {
        self.idx < FEATURE_SHAPES
    }

    /// The calibration weight selected by this token's feature index.
    pub fn weight(&self) -> (w: u32)
        requires
            self.well_formed(),
        ensures
            w == spec_feature_weight(self.idx as int),
    {
        feature_weight(self.idx)
    }
}

/// The calibration weight assigned to feature shape `idx`.
pub open spec fn spec_feature_weight(idx: int) -> u32 {
    if idx == 0 {
        1
    } else if idx == 1 {
        3125
    } else if idx == 2 {
        256
    } else if idx == 3 {
        27
    } else if idx == 4 {
        1
    } else {
        0
    }
}

/// Fixed, process-wide confidence multiplier for each feature shape,
/// calibrated empirically: a unigram counts with weight 1, the most specific
/// sparse n-gram spans with up to 3125, and the least informative shapes are
/// discarded with weight 0.
pub fn feature_weight(idx: usize) -> (w: u32)
    requires
        idx < FEATURE_SHAPES,
    ensures
        w == spec_feature_weight(idx as int),
{
    match idx {
        0 => 1,
        1 => 3125,
        2 => 256,
        3 => 27,
        4 => 1,
        _ => 0,
    }
}

} // verus!
