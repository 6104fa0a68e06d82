use crate::acc::CompleteError;
use crate::layer::Layer;
use crate::path::dotted_path;
use crate::sample::{Sample, SampleLayer};
use vstd::prelude::*;

verus! {

/// Law: for every partial-value type, the empty partial is a left and a
/// right identity of merge.
pub proof fn lemma_layer_merge_identity<L: Layer>(x: L)
    ensures
        L::spec_merge(L::spec_new(), x) == x,
        L::spec_merge(x, L::spec_new()) == x,
{
    L::lemma_merge_identity(x);
}

/// Law: for every partial-value type, merge is associative, so sources can
/// be folded in any grouping.
pub proof fn lemma_layer_merge_associative<L: Layer>(a: L, b: L, c: L)
    ensures
        L::spec_merge(L::spec_merge(a, b), c) == L::spec_merge(a, L::spec_merge(b, c)),
{
    L::lemma_merge_associative(a, b, c);
}

/// Law: merge is right-biased per plain field: the later source's value wins
/// exactly when it is present, at the top level and inside the nested layer.
pub proof fn lemma_merge_right_biased(a: SampleLayer, b: SampleLayer)
    ensures
        SampleLayer::spec_merge(a, b).with_default_foo == if b.with_default_foo is Some {
            b.with_default_foo
        } else {
            a.with_default_foo
        },
        SampleLayer::spec_merge(a, b).optional_bar == if b.optional_bar is Some {
            b.optional_bar
        } else {
            a.optional_bar
        },
        SampleLayer::spec_merge(a, b).required_baz == if b.required_baz is Some {
            b.required_baz
        } else {
            a.required_baz
        },
        SampleLayer::spec_merge(a, b).nested.foo_env == if b.nested.foo_env is Some {
            b.nested.foo_env
        } else {
            a.nested.foo_env
        },
        SampleLayer::spec_merge(a, b).nested.bar_env_multiple == if b.nested.bar_env_multiple
            is Some {
            b.nested.bar_env_multiple
        } else {
            a.nested.bar_env_multiple
        },
{
}

/// Law: resolving a fully-populated partial always succeeds, and the value
/// it yields has exactly the partial's present values, including
/// transitively in the nested field.
pub proof fn lemma_resolve_fully_populated(x: SampleLayer, r: Result<Sample, CompleteError>)
    requires
        x.fully_populated(),
        SampleLayer::complete_post(x, r),
    ensures
        r is Ok,
        (r matches Ok(c) ==> {
            &&& c.with_default_foo == x.with_default_foo->0
            &&& c.optional_bar == x.optional_bar
            &&& c.required_baz == x.required_baz->0
            &&& c.nested.foo_env == x.nested.foo_env->0
            &&& c.nested.bar_env_multiple == x.nested.bar_env_multiple
        }),
{
}

/// Law: resolution reports exactly one entry per missing required field, at
/// any depth — never fewer (no fail-fast) and never more.
pub proof fn lemma_missing_count_exact(x: SampleLayer)
    ensures
        x.spec_missing().len() == (if x.with_default_foo is None {
            1int
        } else {
            0int
        }) + (if x.required_baz is None {
            1int
        } else {
            0int
        }) + (if x.nested.foo_env is None {
            1int
        } else {
            0int
        }),
{
}

/// Law: a partial missing `with_default_foo`, `required_baz` and the nested
/// `foo_env` resolves to a report of exactly those three entries, in
/// visiting order, with full root-to-leaf paths — never fewer and never
/// more.
pub proof fn lemma_missing_fields_all_reported(x: SampleLayer, r: Result<Sample, CompleteError>)
    requires
        x.with_default_foo is None,
        x.required_baz is None,
        x.nested.foo_env is None,
        SampleLayer::complete_post(x, r),
    ensures
        r matches Err(CompleteError::MissingFields(e)) && e@.len() == 3,
        x.spec_missing().len() == 3,
        dotted_path(x.spec_missing()[0].0) =~= "with_default_foo"@,
        dotted_path(x.spec_missing()[1].0) =~= "required_baz"@,
        dotted_path(x.spec_missing()[2].0) =~= "nested"@ + seq!['.'] + "foo_env"@,
{
    assert(x.spec_missing()[2].0 =~= seq!["foo_env"@, "nested"@]);
    assert(x.spec_missing()[2].0.reverse() =~= seq!["nested"@, "foo_env"@]);
    let s2 = seq!["nested"@, "foo_env"@];
    let s1 = seq!["foo_env"@];
    assert(s2.drop_first() =~= s1);
    assert(s1[0] == "foo_env"@);
    assert(crate::path::spec_join(s1, seq!['.']) == "foo_env"@);
    assert(s2[0] == "nested"@);
    assert(crate::path::spec_join(s2, seq!['.']) == "nested"@ + seq!['.'] + "foo_env"@);
}

} // verus!
