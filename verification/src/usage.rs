//! Token usage and how two reports of it are merged.

use vstd::prelude::*;

verus! {

/// Token counts as a provider reports them. A count that was not reported
/// is absent, which is not the same as zero.
#[derive(Debug, Clone, Copy, PartialEq, Eq, Structural)]
pub struct Usage {
    pub prompt_tokens: Option<u32>,
    pub completion_tokens: Option<u32>,
}

/// Token counts as natural numbers, without a machine limit.
pub struct UsageView {
    pub prompt_tokens: Option<nat>,
    pub completion_tokens: Option<nat>,
}

/// The sum of two optional counts: an absent count is the identity, so the
/// sum is absent only when both are.
pub open spec fn merge_counts(a: Option<nat>, b: Option<nat>) -> Option<nat> {
    match (a, b) {
        (Some(x), Some(y)) => Some(x + y),
        (Some(x), None) => Some(x),
        (None, Some(y)) => Some(y),
        (None, None) => None,
    }
}

/// Whether an optional count can be held in 32 bits.
pub open spec fn count_fits(a: Option<nat>) -> bool {
    match a {
        Some(x) => x <= u32::MAX,
        None => true,
    }
}

pub open spec fn count_view(a: Option<u32>) -> Option<nat> {
    match a {
        Some(x) => Some(x as nat),
        None => None,
    }
}

impl UsageView {
    /// No count at all.
    pub open spec fn empty() -> UsageView {
        UsageView { prompt_tokens: None, completion_tokens: None }
    }

    /// Field by field, the sum of the counts that are present.
    pub open spec fn merge(self, other: UsageView) -> UsageView {
        UsageView {
            prompt_tokens: merge_counts(self.prompt_tokens, other.prompt_tokens),
            completion_tokens: merge_counts(self.completion_tokens, other.completion_tokens),
        }
    }

    /// Both counts can be held in 32 bits.
    pub open spec fn fits(self) -> bool {
        count_fits(self.prompt_tokens) && count_fits(self.completion_tokens)
    }
}

impl View for Usage {
    type V = UsageView;

    open spec fn view(&self) -> UsageView {
        UsageView {
            prompt_tokens: count_view(self.prompt_tokens),
            completion_tokens: count_view(self.completion_tokens),
        }
    }
}

/// Whether the sum of two optional counts can be held in 32 bits.
pub fn counts_fit(a: Option<u32>, b: Option<u32>) -> (r: bool)
    ensures
        r == count_fits(merge_counts(count_view(a), count_view(b))),
{
    match (a, b) {
        (Some(x), Some(y)) => x <= u32::MAX - y,
        _ => true,
    }
}

/// The sum of two optional counts.
pub fn add_counts(a: Option<u32>, b: Option<u32>) -> (r: Option<u32>)
    requires
        count_fits(merge_counts(count_view(a), count_view(b))),
    ensures
        count_view(r) == merge_counts(count_view(a), count_view(b)),
{
    match (a, b) {
        (Some(x), Some(y)) => Some(x + y),
        (Some(x), None) => Some(x),
        (None, Some(y)) => Some(y),
        (None, None) => None,
    }
}

impl Default for Usage {
    fn default() -> (r: Usage)
        ensures
            r@ == UsageView::empty(),
    {
        Usage { prompt_tokens: None, completion_tokens: None }
    }
}

impl Usage {
    /// Whether `merge` with `other` stays within 32 bits.
    pub fn can_merge(&self, other: &Usage) -> (r: bool)
        ensures
            r == self@.merge(other@).fits(),
    {
        counts_fit(self.prompt_tokens, other.prompt_tokens) && counts_fit(
            self.completion_tokens,
            other.completion_tokens,
        )
    }

    /// The two reports summed: a field present in either is present in the
    /// result, and an absent field never overrides a present one.
    pub fn merge(&self, other: &Usage) -> (r: Usage)
        requires
            self@.merge(other@).fits(),
        ensures
            r@ == self@.merge(other@),
    {
        Usage {
            prompt_tokens: add_counts(self.prompt_tokens, other.prompt_tokens),
            completion_tokens: add_counts(self.completion_tokens, other.completion_tokens),
        }
    }
}

/// Merging is commutative.
pub proof fn merge_is_commutative(a: UsageView, b: UsageView)
    ensures
        a.merge(b) == b.merge(a),
{
}

/// Merging is associative.
pub proof fn merge_is_associative(a: UsageView, b: UsageView, c: UsageView)
    ensures
        a.merge(b).merge(c) == a.merge(b.merge(c)),
{
}

/// The empty usage is the identity of merging, on both sides.
pub proof fn merge_with_empty(a: UsageView)
    ensures
        a.merge(UsageView::empty()) == a,
        UsageView::empty().merge(a) == a,
{
}

/// A sum that fits has parts that fit, so a merge that can be made in one
/// order can be made in any.
pub proof fn merge_fits_in_parts(a: UsageView, b: UsageView)
    requires
        a.merge(b).fits(),
    ensures
        a.fits(),
        b.fits(),
{
}

} // verus!
