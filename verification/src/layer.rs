use crate::acc::CompleteError;
use vstd::prelude::*;

verus! {

/// The partial-value contract: every configurable type's partial counterpart
/// can be constructed empty, merged right-biased with another partial of the
/// same shape, and resolved into the complete value or into a batch report
/// of everything that is missing.
///
/// The two proof obligations make every implementation law-abiding: the
/// empty partial is a merge identity on both sides, and merge is
/// associative, so sources can be folded in any grouping.
pub trait Layer: Sized {
    type Complete;

    /// The model of the empty partial.
    spec fn spec_new() -> Self;

    /// The model of the field-by-field merge of two partials.
    spec fn spec_merge(a: Self, b: Self) -> Self;

    /// What resolving the partial `pre` returns: each implementation pins
    /// the result down, the success value and the reported entries both.
    spec fn complete_post(pre: Self, r: Result<Self::Complete, CompleteError>) -> bool;

    fn new() -> (r: Self)
        ensures
            r == Self::spec_new(),
    ;

    fn merge(self, other: Self) -> (r: Self)
        ensures
            r == Self::spec_merge(self, other),
    ;

    fn complete(self) -> (r: Result<Self::Complete, CompleteError>)
        ensures
            Self::complete_post(self, r),
    ;

    /// Law: the empty partial is a left and a right identity of merge.
    proof fn lemma_merge_identity(x: Self)
        ensures
            Self::spec_merge(Self::spec_new(), x) == x,
            Self::spec_merge(x, Self::spec_new()) == x,
    ;

    /// Law: merge is associative.
    proof fn lemma_merge_associative(a: Self, b: Self, c: Self)
        ensures
            Self::spec_merge(Self::spec_merge(a, b), c) == Self::spec_merge(
                a,
                Self::spec_merge(b, c),
            ),
    ;
}

/// Ties a configuration type to its partial counterpart.
pub trait HasLayer {
    type Layer: Layer<Complete = Self>;
}

} // verus!
