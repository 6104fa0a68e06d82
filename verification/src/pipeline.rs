use crate::acc::CompleteError;
use crate::layer::Layer;
use vstd::prelude::*;

verus! {

/// The model of folding sources in order into one partial, starting from
/// the empty one: later sources win per field.
pub open spec fn spec_merge_all<L: Layer>(layers: Seq<L>) -> L
    decreases layers.len(),
{
    if layers.len() == 0 {
        L::spec_new()
    } else {
        L::spec_merge(spec_merge_all(layers.drop_last()), layers.last())
    }
}

/// Folds the given sources in order into one partial.
pub fn merge_all<L: Layer>(layers: Vec<L>) -> (r: L)
    ensures
        r == spec_merge_all(layers@),
{
    let ghost all: Seq<L> = layers@;
    let mut rest = layers;
    let mut acc = L::new();
    let ghost mut k: int = 0;
    proof {
        assert(rest@ =~= all.skip(0));
        assert(all.take(0) =~= Seq::<L>::empty());
    }
    while rest.len() > 0
        invariant
            0 <= k <= all.len(),
            rest@.len() == all.len() - k,
            rest@ =~= all.skip(k),
            acc == spec_merge_all(all.take(k)),
        decreases rest@.len(),
    {
        let ghost p0 = rest@;
        let next = rest.remove(0);
        proof {
            assert(rest@ =~= p0.skip(1));
            assert(rest@ =~= all.skip(k + 1));
            assert(next == all[k]);
        }
        acc = acc.merge(next);
        proof {
            k = k + 1;
            assert(all.take(k).drop_last() =~= all.take(k - 1));
            assert(all.take(k).last() == all[k - 1]);
        }
    }
    proof {
        assert(all.take(k) =~= all);
    }
    acc
}

/// The composition root: sources in precedence order — defaults first, the
/// most specific last — merged and resolved in one pass.
pub fn resolve<L: Layer>(sources: Vec<L>) -> (r: Result<L::Complete, CompleteError>)
    ensures
        L::complete_post(spec_merge_all(sources@), r),
{
    merge_all(sources).complete()
}

/// Law: folding sources is independent of how they are grouped — merging
/// two folded batches equals folding all the sources in order. This is the
/// merge laws at work: the empty partial drops out as the identity, and
/// associativity lets the grouping move.
pub proof fn lemma_merge_all_append<L: Layer>(s1: Seq<L>, s2: Seq<L>)
    ensures
        spec_merge_all(s1 + s2) == L::spec_merge(spec_merge_all(s1), spec_merge_all(s2)),
    decreases s2.len(),
{
    if s2.len() == 0 {
        assert(s1 + s2 =~= s1);
        L::lemma_merge_identity(spec_merge_all(s1));
    } else {
        assert((s1 + s2).drop_last() =~= s1 + s2.drop_last());
        assert((s1 + s2).last() == s2.last());
        lemma_merge_all_append::<L>(s1, s2.drop_last());
        L::lemma_merge_associative(
            spec_merge_all(s1),
            spec_merge_all(s2.drop_last()),
            s2.last(),
        );
    }
}

} // verus!
