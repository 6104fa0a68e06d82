use soukousei::generator::{Ir, IrField, LayerArgs};
use soukousei::schema::{LayerField, LayerFieldArgs, LayerParamEnv, MetaExpr, SchemaError};

fn plain_field(
    ident: &str,
    ty: &str,
    is_optional: bool,
    default: Option<&str>,
    env: Option<LayerParamEnv>,
) -> LayerFieldArgs {
    LayerFieldArgs {
        ident: Some(ident.to_owned()),
        ty: ty.to_owned(),
        is_optional,
        default: default.map(|d| d.to_owned()),
        env,
        nested: false,
    }
}

fn nested_field(ident: &str, ty: &str) -> LayerFieldArgs {
    LayerFieldArgs {
        ident: Some(ident.to_owned()),
        ty: ty.to_owned(),
        is_optional: false,
        default: None,
        env: None,
        nested: true,
    }
}

#[test]
fn parse_all_attributes() {
    let baz_env = LayerParamEnv::from_expr(&MetaExpr::Str("ENV".to_owned())).unwrap();
    assert_eq!(baz_env, LayerParamEnv::Single("ENV".to_owned()));

    let foo_bar_env = LayerParamEnv::from_expr(&MetaExpr::Array(vec![
        MetaExpr::Str("FOO".to_owned()),
        MetaExpr::Str("BAR".to_owned()),
    ]))
    .unwrap();
    assert_eq!(
        foo_bar_env,
        LayerParamEnv::Multiple(vec!["FOO".to_owned(), "BAR".to_owned()])
    );

    let args = LayerArgs {
        ident: "Test".to_owned(),
        fields: vec![
            plain_field("foo", "u32", false, Some("100"), None),
            plain_field("bar", "Option<String>", true, None, None),
            plain_field("baz", "bool", false, None, Some(baz_env)),
            plain_field("foo_bar", "u32", false, None, Some(foo_bar_env)),
            nested_field("nested", "AnotherConfig"),
        ],
    };

    assert_eq!(args.ident, "Test");
    let foo = &args.fields[0];
    assert_eq!(foo.default, Some("100".to_owned()));
    assert_eq!(foo.env, None);
    assert_eq!(foo.nested, false);
    let bar = &args.fields[1];
    assert_eq!(bar.default, None);
    assert_eq!(bar.env, None);
    assert_eq!(bar.nested, false);
    let baz = &args.fields[2];
    assert_eq!(baz.default, None);
    assert_eq!(baz.env, Some(LayerParamEnv::Single("ENV".to_owned())));
    assert_eq!(baz.nested, false);
    let foo_bar = &args.fields[3];
    assert_eq!(foo_bar.default, None);
    assert_eq!(
        foo_bar.env,
        Some(LayerParamEnv::Multiple(vec!["FOO".to_owned(), "BAR".to_owned()]))
    );
    assert_eq!(foo_bar.nested, false);
    let nested = &args.fields[4];
    assert_eq!(nested.nested, true);

    let ir = Ir::from_args(args).unwrap();
    assert_eq!(ir.ident_main, "Test");
    assert_eq!(ir.ident_layer, "TestLayer");
    assert!(ir.impl_default);
    assert!(ir.impl_from_env);
    assert_eq!(ir.fields.len(), 5);
    assert!(matches!(ir.fields[4], IrField::NestedLayer { .. }));
}

#[test]
fn nested_with_env_is_not_allowed() {
    let mut decl = nested_field("nested", "AnotherConfig");
    decl.env = Some(LayerParamEnv::Single("ENV".to_owned()));
    let err = LayerField::try_from_args(decl).unwrap_err();
    assert_eq!(err, SchemaError::NestedWithEnv);
}

#[test]
fn nested_with_default_is_not_allowed() {
    let mut decl = nested_field("nested", "AnotherConfig");
    decl.default = Some("100".to_owned());
    let err = LayerField::try_from_args(decl).unwrap_err();
    assert_eq!(err, SchemaError::NestedWithDefault);
}

#[test]
fn an_unnamed_field_is_rejected() {
    let mut decl = plain_field("x", "u32", false, None, None);
    decl.ident = None;
    let err = LayerField::try_from_args(decl).unwrap_err();
    assert_eq!(err, SchemaError::UnnamedField);
}

#[test]
fn schema_errors_fail_the_whole_generation() {
    let mut bad = nested_field("nested", "AnotherConfig");
    bad.default = Some("1".to_owned());
    let args = LayerArgs {
        ident: "Test".to_owned(),
        fields: vec![plain_field("ok", "u32", false, None, None), bad],
    };
    let err = Ir::from_args(args).unwrap_err();
    assert_eq!(err, SchemaError::NestedWithDefault);
}

#[test]
fn env_declarations_reject_unexpected_shapes() {
    assert_eq!(
        LayerParamEnv::from_expr(&MetaExpr::Other).unwrap_err(),
        SchemaError::UnexpectedExpr
    );
    assert_eq!(
        LayerParamEnv::from_expr(&MetaExpr::Array(vec![])).unwrap_err(),
        SchemaError::UnexpectedExpr
    );
    assert_eq!(
        LayerParamEnv::from_expr(&MetaExpr::Array(vec![
            MetaExpr::Str("A".to_owned()),
            MetaExpr::Other,
        ]))
        .unwrap_err(),
        SchemaError::UnexpectedExpr
    );
}

#[test]
fn codegen_emits_the_whole_conforming_impl() {
    let args = LayerArgs {
        ident: "Mini".to_owned(),
        fields: vec![plain_field(
            "count",
            "u32",
            false,
            Some("7"),
            Some(LayerParamEnv::Single("COUNT".to_owned())),
        )],
    };
    let ir = Ir::from_args(args).unwrap();
    let generated = ir.codegen();

    let expected = String::new()
        + "impl ::soukousei::HasLayer for Mini {\n    type Layer = MiniLayer;\n}\n\n"
        + "pub struct MiniLayer {\n    count: Option<u32>,\n}\n\n"
        + "impl ::soukousei::Layer for MiniLayer {\n    type Complete = Mini;\n\n"
        + "    fn new() -> Self {\n        Self {\n            count: None,\n        }\n    }\n\n"
        + "    fn merge(self, other: Self) -> Self {\n        Self {\n            count: other.count.or(self.count),\n        }\n    }\n\n"
        + "    fn complete(self) -> Result<Self::Complete, ::soukousei::CompleteError> {\n"
        + "        let errors = ::soukousei::MultipleFieldsError::new();\n"
        + "        let errors = errors.add_if_none(&self.count, \"count\");\n"
        + "        match errors.result() {\n            Err(e) => Err(::soukousei::CompleteError::MissingFields(e)),\n"
        + "            Ok(()) => Ok(Self::Complete {\n                count: self.count.unwrap(),\n            }),\n        }\n    }\n}\n\n"
        + "impl Default for MiniLayer {\n    fn default() -> Self {\n        Self {\n            count: Some(7),\n        }\n    }\n}\n\n"
        + "impl ::soukousei::env::FromEnv for MiniLayer {\n"
        + "    fn from_env<P: ::soukousei::env::EnvProvider>(provider: &P) -> Result<Self, ::soukousei::MultipleFieldsError<::soukousei::env::FieldFromEnvError>> {\n"
        + "        let errors = ::soukousei::MultipleFieldsError::new();\n"
        + "        let (count, errors) = errors.add_if_err(\"count\", ::soukousei::env::fetch_and_parse(provider, \"COUNT\"));\n"
        + "        match errors.result() {\n            Err(e) => Err(e),\n            Ok(()) => Ok(Self {\n                count: count,\n            }),\n        }\n    }\n}\n\n";

    assert_eq!(generated, expected);
}

#[test]
fn codegen_wires_nested_delegation_and_fallback_lists() {
    let args = LayerArgs {
        ident: "Sample".to_owned(),
        fields: vec![
            plain_field("with_default_foo", "u32", false, Some("100"), None),
            plain_field("optional_bar", "Option<String>", true, None, None),
            plain_field(
                "bar_env_multiple",
                "u32",
                false,
                None,
                Some(LayerParamEnv::Multiple(vec![
                    "SPECIFIC_BAR".to_owned(),
                    "BAR".to_owned(),
                ])),
            ),
            nested_field("nested", "Nested"),
        ],
    };
    let generated = Ir::from_args(args).unwrap().codegen();

    assert!(generated.contains("impl ::soukousei::HasLayer for Sample"));
    assert!(generated.contains("pub struct SampleLayer"));
    assert!(generated.contains("optional_bar: Option<String>,"));
    assert!(generated.contains("nested: <Nested as ::soukousei::HasLayer>::Layer,"));
    assert!(generated.contains("with_default_foo: other.with_default_foo.or(self.with_default_foo)"));
    assert!(generated.contains("nested: ::soukousei::Layer::merge(self.nested, other.nested)"));
    assert!(generated.contains("with_default_foo: Some(100)"));
    assert!(generated.contains("nested: Default::default()"));
    assert!(generated
        .contains("::soukousei::env::try_fetch_multiple_and_parse(provider, &[\"SPECIFIC_BAR\", \"BAR\"])"));
    assert!(generated
        .contains("let (nested, errors) = self.nested.complete().nest_if_err(errors, \"nested\");"));
    assert!(!generated.contains("optional_bar: self.optional_bar.unwrap()"));
    assert!(generated.contains("optional_bar: self.optional_bar,"));
}
