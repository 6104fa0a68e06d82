use soukousei::env::{
    default_env_parse, fetch_and_parse, try_fetch_multiple_and_parse, EnvErrorKind, EnvProvider,
    FromEnv, MapEnv,
};
use soukousei::sample::NestedLayer;

#[test]
fn fetch_present_absent_and_invalid() {
    let provider = MapEnv::new().add("SET", "value").add_invalid("BROKEN");
    assert_eq!(provider.fetch("SET").unwrap(), Some("value".to_owned()));
    assert_eq!(provider.fetch("UNSET").unwrap(), None);
    let err = provider.fetch("BROKEN").unwrap_err();
    assert_eq!(err.variable, "BROKEN");
}

#[test]
fn later_additions_shadow_earlier_ones() {
    let provider = MapEnv::new().add("KEY", "first").add("KEY", "second");
    assert_eq!(provider.fetch("KEY").unwrap(), Some("second".to_owned()));
}

#[test]
fn candidate_list_takes_the_fallback_when_only_it_is_set() {
    let provider = MapEnv::new().add("BAR", "7");
    let got: Option<u32> =
        try_fetch_multiple_and_parse(&provider, &["SPECIFIC_BAR", "BAR"]).unwrap();
    assert_eq!(got, Some(7));
}

#[test]
fn candidate_list_prefers_the_earlier_name_when_both_are_set() {
    let provider = MapEnv::new().add("SPECIFIC_BAR", "1").add("BAR", "2");
    let got: Option<u32> =
        try_fetch_multiple_and_parse(&provider, &["SPECIFIC_BAR", "BAR"]).unwrap();
    assert_eq!(got, Some(1));
}

#[test]
fn candidate_list_yields_nothing_when_none_is_set() {
    let provider = MapEnv::new();
    let got: Option<u32> =
        try_fetch_multiple_and_parse(&provider, &["SPECIFIC_BAR", "BAR"]).unwrap();
    assert_eq!(got, None);
}

#[test]
fn a_parse_failure_on_an_examined_name_does_not_fall_through() {
    let provider = MapEnv::new().add("SPECIFIC_BAR", "not a number").add("BAR", "2");
    let err =
        try_fetch_multiple_and_parse::<MapEnv, u32>(&provider, &["SPECIFIC_BAR", "BAR"])
            .unwrap_err();
    assert_eq!(err.kind, EnvErrorKind::Parse);
    assert_eq!(err.variable, "SPECIFIC_BAR");
}

#[test]
fn an_unreadable_value_is_a_fetch_error_not_an_absence() {
    let provider = MapEnv::new().add_invalid("FOO");
    let err = fetch_and_parse::<MapEnv, String>(&provider, "FOO").unwrap_err();
    assert_eq!(err.kind, EnvErrorKind::Fetch);
    assert_eq!(err.variable, "FOO");
}

#[test]
fn from_env_populates_the_nested_layer() {
    let provider = MapEnv::new().add("FOO", "hello").add("BAR", "3");
    let layer = NestedLayer::from_env(&provider).unwrap();
    assert_eq!(layer.foo_env, Some("hello".to_owned()));
    assert_eq!(layer.bar_env_multiple, Some(3));
}

#[test]
fn from_env_collects_every_field_failure_in_one_report() {
    let provider = MapEnv::new().add_invalid("FOO").add("BAR", "oops");
    let err = NestedLayer::from_env(&provider).unwrap_err();
    let report = err.into_diagnostic();
    assert_eq!(report.items.len(), 2);
    assert_eq!(report.items[0].path, "foo_env");
    assert_eq!(report.items[0].main.kind, EnvErrorKind::Fetch);
    assert_eq!(report.items[0].main.variable, "FOO");
    assert_eq!(report.items[1].path, "bar_env_multiple");
    assert_eq!(report.items[1].main.kind, EnvErrorKind::Parse);
    assert_eq!(report.items[1].main.variable, "BAR");
}

#[test]
fn parse_u32_accepts_plain_and_signed_decimals() {
    assert_eq!(default_env_parse::<u32>("0").unwrap(), 0);
    assert_eq!(default_env_parse::<u32>("42").unwrap(), 42);
    assert_eq!(default_env_parse::<u32>("+42").unwrap(), 42);
    assert_eq!(default_env_parse::<u32>("007").unwrap(), 7);
    assert_eq!(default_env_parse::<u32>("4294967295").unwrap(), 4294967295);
}

#[test]
fn parse_u32_rejects_garbage_and_overflow() {
    assert!(default_env_parse::<u32>("").is_err());
    assert!(default_env_parse::<u32>("+").is_err());
    assert!(default_env_parse::<u32>("-1").is_err());
    assert!(default_env_parse::<u32>("12a").is_err());
    assert!(default_env_parse::<u32>("4294967296").is_err());
    assert!(default_env_parse::<u32>("99999999999999999999").is_err());
}

#[test]
fn parse_bool_accepts_only_the_canonical_spellings() {
    assert_eq!(default_env_parse::<bool>("true").unwrap(), true);
    assert_eq!(default_env_parse::<bool>("false").unwrap(), false);
    assert!(default_env_parse::<bool>("True").is_err());
    assert!(default_env_parse::<bool>("1").is_err());
    assert!(default_env_parse::<bool>("").is_err());
    assert!(default_env_parse::<bool>("truest").is_err());
}

#[test]
fn parse_string_is_the_identity() {
    assert_eq!(default_env_parse::<String>("anything at all").unwrap(), "anything at all");
    assert_eq!(default_env_parse::<String>("").unwrap(), "");
}
