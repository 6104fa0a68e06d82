use soukousei::env::{FromEnv, MapEnv};
use soukousei::pipeline::{merge_all, resolve};
use soukousei::sample::{NestedLayer, Sample, SampleLayer};
use soukousei::{CompleteError, HasLayer, Layer};

/// Builds a partial from a TOML document: every field of the document is
/// optional, and fields absent from it stay absent in the partial.
fn sample_layer_from_toml(input: &str) -> SampleLayer {
    let table: toml::Table = input.parse().unwrap();
    let nested = table.get("nested").and_then(|v| v.as_table());
    SampleLayer {
        with_default_foo: table
            .get("with_default_foo")
            .and_then(|v| v.as_integer())
            .map(|x| x as u32),
        optional_bar: table
            .get("optional_bar")
            .and_then(|v| v.as_str())
            .map(|s| s.to_owned()),
        required_baz: table.get("required_baz").and_then(|v| v.as_bool()),
        nested: NestedLayer {
            foo_env: nested
                .and_then(|t| t.get("foo_env"))
                .and_then(|v| v.as_str())
                .map(|s| s.to_owned()),
            bar_env_multiple: nested
                .and_then(|t| t.get("bar_env_multiple"))
                .and_then(|v| v.as_integer())
                .map(|x| x as u32),
        },
    }
}

#[test]
fn heap_success_build_from_toml() {
    let input: &str = r#"
    required_baz = false
    "#;

    let config: Sample = <Sample as HasLayer>::Layer::default()
        .merge(sample_layer_from_toml(input))
        .merge(
            SampleLayer::from_env(&MapEnv::new().add("FOO", "SELECT foo FROM env")).unwrap(),
        )
        .complete()
        .unwrap();

    assert_eq!(config.with_default_foo, 100);
    assert_eq!(config.required_baz, false);
    assert_eq!(config.nested.foo_env, "SELECT foo FROM env");
}

#[test]
fn manual_macro_success_build_from_toml() {
    let input: &str = r#"
    required_baz = false
    "#;

    let partial = SampleLayer::default()
        .merge(sample_layer_from_toml(input))
        .merge(
            SampleLayer::from_env(&MapEnv::new().add("FOO", "SELECT foo FROM env")).unwrap(),
        )
        .complete()
        .unwrap();

    assert_eq!(partial.with_default_foo, 100);
    assert_eq!(partial.required_baz, false);
    assert_eq!(partial.nested.foo_env, "SELECT foo FROM env");
    assert_eq!(partial.nested.bar_env_multiple, None);
    assert_eq!(partial.optional_bar, None);
}

#[test]
fn roundtrip_document_env_and_defaults() {
    let doc = "required_baz = false";
    let provider = MapEnv::new().add("FOO", "from the environment");

    let resolved = SampleLayer::default()
        .merge(sample_layer_from_toml(doc))
        .merge(SampleLayer::from_env(&provider).unwrap())
        .complete()
        .unwrap();

    assert_eq!(resolved.required_baz, false);
    assert_eq!(resolved.nested.foo_env, "from the environment");
    assert_eq!(resolved.with_default_foo, 100);
}

#[test]
fn fully_populated_resolves_to_its_values() {
    let partial = SampleLayer {
        with_default_foo: Some(7),
        optional_bar: Some("kept".to_owned()),
        required_baz: Some(true),
        nested: NestedLayer {
            foo_env: Some("deep".to_owned()),
            bar_env_multiple: Some(3),
        },
    };
    let resolved = partial.complete().unwrap();
    assert_eq!(resolved.with_default_foo, 7);
    assert_eq!(resolved.optional_bar, Some("kept".to_owned()));
    assert_eq!(resolved.required_baz, true);
    assert_eq!(resolved.nested.foo_env, "deep");
    assert_eq!(resolved.nested.bar_env_multiple, Some(3));
}

#[test]
fn optional_fields_may_stay_absent() {
    let partial = SampleLayer {
        with_default_foo: Some(1),
        optional_bar: None,
        required_baz: Some(false),
        nested: NestedLayer {
            foo_env: Some("x".to_owned()),
            bar_env_multiple: None,
        },
    };
    let resolved = partial.complete().unwrap();
    assert_eq!(resolved.optional_bar, None);
    assert_eq!(resolved.nested.bar_env_multiple, None);
}

#[test]
fn missing_fields_are_all_reported_with_full_paths() {
    let partial = SampleLayer {
        with_default_foo: None,
        optional_bar: Some("present".to_owned()),
        required_baz: None,
        nested: NestedLayer {
            foo_env: None,
            bar_env_multiple: Some(5),
        },
    };
    let err = match partial.complete() {
        Err(CompleteError::MissingFields(e)) => e,
        other => panic!("expected a missing-fields report, got {:?}", other),
    };
    let report = err.into_diagnostic();
    assert_eq!(report.items.len(), 3);
    assert_eq!(report.items[0].path, "with_default_foo");
    assert_eq!(report.items[1].path, "required_baz");
    assert_eq!(report.items[2].path, "nested.foo_env");
}

#[test]
fn folding_sources_matches_the_chained_merges() {
    let doc = "required_baz = true";
    let provider = MapEnv::new().add("FOO", "folded").add("SPECIFIC_BAR", "8");

    let folded = merge_all(vec![
        SampleLayer::default(),
        sample_layer_from_toml(doc),
        SampleLayer::from_env(&provider).unwrap(),
    ]);
    let chained = SampleLayer::default()
        .merge(sample_layer_from_toml(doc))
        .merge(SampleLayer::from_env(&provider).unwrap());

    assert_eq!(folded.with_default_foo, chained.with_default_foo);
    assert_eq!(folded.required_baz, chained.required_baz);
    assert_eq!(folded.nested.foo_env, chained.nested.foo_env);
    assert_eq!(folded.nested.bar_env_multiple, chained.nested.bar_env_multiple);

    let resolved = resolve(vec![
        SampleLayer::default(),
        sample_layer_from_toml(doc),
        SampleLayer::from_env(&provider).unwrap(),
    ])
    .unwrap();
    assert_eq!(resolved.with_default_foo, 100);
    assert_eq!(resolved.required_baz, true);
    assert_eq!(resolved.nested.foo_env, "folded");
    assert_eq!(resolved.nested.bar_env_multiple, Some(8));
}

#[test]
fn resolution_never_stops_at_the_first_missing_field() {
    let partial = SampleLayer::new();
    let err = match partial.complete() {
        Err(CompleteError::MissingFields(e)) => e,
        other => panic!("expected a missing-fields report, got {:?}", other),
    };
    let report = err.into_diagnostic();
    assert_eq!(report.items.len(), 3);
}
