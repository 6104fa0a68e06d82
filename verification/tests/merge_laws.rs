use soukousei::env::{FromEnv, MapEnv};
use soukousei::sample::{CustomLayer, NestedLayer, SampleLayer};
use soukousei::{CompleteError, Layer};

fn full(tag: &str, n: u32) -> SampleLayer {
    SampleLayer {
        with_default_foo: Some(n),
        optional_bar: Some(format!("bar-{tag}")),
        required_baz: Some(n % 2 == 0),
        nested: NestedLayer {
            foo_env: Some(format!("foo-{tag}")),
            bar_env_multiple: Some(n + 1),
        },
    }
}

fn assert_same(a: &SampleLayer, b: &SampleLayer) {
    assert_eq!(a.with_default_foo, b.with_default_foo);
    assert_eq!(a.optional_bar, b.optional_bar);
    assert_eq!(a.required_baz, b.required_baz);
    assert_eq!(a.nested.foo_env, b.nested.foo_env);
    assert_eq!(a.nested.bar_env_multiple, b.nested.bar_env_multiple);
}

#[test]
fn merge_is_right_biased_per_field() {
    let a = full("a", 1);
    let b = SampleLayer {
        with_default_foo: Some(9),
        optional_bar: None,
        required_baz: None,
        nested: NestedLayer { foo_env: None, bar_env_multiple: Some(77) },
    };
    let m = full("a", 1).merge(b);
    // Present fields of the later source win; absent ones keep the earlier value.
    assert_eq!(m.with_default_foo, Some(9));
    assert_eq!(m.optional_bar, a.optional_bar);
    assert_eq!(m.required_baz, a.required_baz);
    assert_eq!(m.nested.foo_env, a.nested.foo_env);
    assert_eq!(m.nested.bar_env_multiple, Some(77));
}

#[test]
fn new_is_a_left_and_right_identity_of_merge() {
    let x = full("x", 4);
    let left = SampleLayer::new().merge(full("x", 4));
    let right = full("x", 4).merge(SampleLayer::new());
    assert_same(&left, &x);
    assert_same(&right, &x);
}

#[test]
fn merge_is_associative() {
    let a = SampleLayer {
        with_default_foo: Some(1),
        optional_bar: None,
        required_baz: Some(true),
        nested: NestedLayer { foo_env: None, bar_env_multiple: Some(10) },
    };
    let b = SampleLayer {
        with_default_foo: None,
        optional_bar: Some("b".to_owned()),
        required_baz: None,
        nested: NestedLayer { foo_env: Some("fb".to_owned()), bar_env_multiple: None },
    };
    let c = SampleLayer {
        with_default_foo: Some(3),
        optional_bar: None,
        required_baz: None,
        nested: NestedLayer { foo_env: None, bar_env_multiple: Some(30) },
    };
    let clone = |l: &SampleLayer| SampleLayer {
        with_default_foo: l.with_default_foo,
        optional_bar: l.optional_bar.clone(),
        required_baz: l.required_baz,
        nested: NestedLayer {
            foo_env: l.nested.foo_env.clone(),
            bar_env_multiple: l.nested.bar_env_multiple,
        },
    };
    let grouped_left = clone(&a).merge(clone(&b)).merge(clone(&c));
    let grouped_right = clone(&a).merge(clone(&b).merge(clone(&c)));
    assert_same(&grouped_left, &grouped_right);
}

#[test]
fn defaults_carry_the_declared_values() {
    let d = SampleLayer::default();
    assert_eq!(d.with_default_foo, Some(100));
    assert_eq!(d.optional_bar, None);
    assert_eq!(d.required_baz, None);
    assert_eq!(d.nested.foo_env, Some("I am default foo!".to_owned()));
    assert_eq!(d.nested.bar_env_multiple, None);
}

#[test]
fn custom_layer_merges_by_maximum() {
    let m = CustomLayer(Some(3)).merge(CustomLayer(Some(8)));
    assert_eq!(m.0, Some(8));
    let m = CustomLayer(Some(9)).merge(CustomLayer(Some(2)));
    assert_eq!(m.0, Some(9));
    let m = CustomLayer(None).merge(CustomLayer(Some(2)));
    assert_eq!(m.0, Some(2));
    let m = CustomLayer(Some(5)).merge(CustomLayer(None));
    assert_eq!(m.0, Some(5));
}

#[test]
fn custom_layer_resolves_or_reports_itself_missing() {
    assert_eq!(CustomLayer(Some(4)).complete().unwrap(), 4);
    assert!(matches!(
        CustomLayer(None).complete(),
        Err(CompleteError::MissingSelf)
    ));
    assert_eq!(CustomLayer::default().0, Some(100));
    assert_eq!(CustomLayer::from_env(&MapEnv::new()).unwrap().0, None);
}
