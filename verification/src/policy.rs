//! Policies that tune how filters evaluate conditions.
use vstd::prelude::*;

verus! {

/// How filters treat missing keys for negative predicates.
///
/// The policy only affects not-equal and not-in conditions; every other
/// predicate keeps its own semantics.
#[derive(Debug, Clone, Copy, PartialEq, Eq, Hash, Structural)]
pub enum MissingKeyPolicy {
    /// Missing keys satisfy negative predicates (the default).
    Match,
    /// Missing keys do not satisfy negative predicates.
    NoMatch,
}

impl MissingKeyPolicy {
    /// Whether a missing key satisfies a negative predicate.
    pub open spec fn spec_matches_negative_predicates(self) -> bool {
        self == MissingKeyPolicy::Match
    }

    /// Returns `true` when a missing key satisfies negative predicates.
    pub fn matches_negative_predicates(self) -> (r: bool)
        ensures
            r == self.spec_matches_negative_predicates(),
    {
        matches!(self, MissingKeyPolicy::Match)
    }
}

impl Default for MissingKeyPolicy {
    fn default() -> (r: Self)
        ensures
            r == MissingKeyPolicy::Match,
    {
        MissingKeyPolicy::Match
    }
}

/// How mixed numeric comparisons are handled.
#[derive(Debug, Clone, Copy, PartialEq, Eq, Hash, Structural)]
pub enum NumberComparisonPolicy {
    /// Preserve precision: comparisons that would need a lossy conversion
    /// are incomparable (the default).
    Conservative,
    /// Fall back to a lossy comparison as doubles where the conservative
    /// policy finds the operands incomparable.
    Approximate,
}

impl NumberComparisonPolicy {
    /// The policy allows lossy comparisons.
    pub open spec fn spec_is_approximate(self) -> bool {
        self == NumberComparisonPolicy::Approximate
    }

    /// Returns `true` when lossy comparisons are allowed.
    pub fn is_approximate(self) -> (r: bool)
        ensures
            r == self.spec_is_approximate(),
    {
        matches!(self, NumberComparisonPolicy::Approximate)
    }
}

impl Default for NumberComparisonPolicy {
    fn default() -> (r: Self)
        ensures
            r == NumberComparisonPolicy::Conservative,
    {
        NumberComparisonPolicy::Conservative
    }
}

/// The policies used when a filter is evaluated.
#[derive(Debug, Clone, Copy, PartialEq, Eq, Hash, Structural)]
pub struct FilterMatchOptions {
    /// Policy for missing keys in negative predicates.
    pub missing_key_policy: MissingKeyPolicy,
    /// Policy for mixed numeric comparisons.
    pub number_comparison_policy: NumberComparisonPolicy,
}

impl FilterMatchOptions {
    /// The default options: missing keys match negative predicates, and
    /// numbers compare conservatively.
    pub open spec fn spec_default() -> FilterMatchOptions {
        FilterMatchOptions {
            missing_key_policy: MissingKeyPolicy::Match,
            number_comparison_policy: NumberComparisonPolicy::Conservative,
        }
    }
}

impl Default for FilterMatchOptions {
    fn default() -> (r: Self)
        ensures
            r == FilterMatchOptions::spec_default(),
    {
        FilterMatchOptions {
            missing_key_policy: MissingKeyPolicy::Match,
            number_comparison_policy: NumberComparisonPolicy::Conservative,
        }
    }
}

} // verus!
