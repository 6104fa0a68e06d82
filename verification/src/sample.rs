use crate::acc::{
    nested_entries, CompleteError, MissingFieldError, MultipleFieldsError, ResultExt,
};
use crate::env::{
    fetch_and_parse, spec_env_field, try_fetch_multiple_and_parse, EnvErrorKind, EnvProvider,
    FieldFromEnvError, FromEnv,
};
use crate::layer::{HasLayer, Layer};
use vstd::prelude::*;
use vstd::string::StringExecFns;

verus! {

/// What the environment holds for the nested `foo_env` field: the single
/// candidate variable `FOO`, parsed as text.
pub open spec fn nested_env_foo<P: EnvProvider>(p: &P) -> Result<
    Option<Seq<char>>,
    (Seq<char>, EnvErrorKind),
> {
    spec_env_field::<P, String>(p, seq!["FOO"@])
}

/// What the environment holds for the nested `bar_env_multiple` field: the
/// candidate variables `SPECIFIC_BAR` then `BAR`, the first one set winning,
/// parsed as a number.
pub open spec fn nested_env_bar<P: EnvProvider>(p: &P) -> Result<
    Option<u32>,
    (Seq<char>, EnvErrorKind),
> {
    spec_env_field::<P, u32>(p, seq!["SPECIFIC_BAR"@, "BAR"@])
}

/// One reported entry: the given path, and the failing variable and step.
pub open spec fn env_entry_matches(
    entry: (Seq<Seq<char>>, FieldFromEnvError),
    path: Seq<Seq<char>>,
    ek: (Seq<char>, EnvErrorKind),
) -> bool {
    entry.0 == path && entry.1.variable@ == ek.0 && entry.1.kind == ek.1
}

/// The report of a failed environment population of the nested layer, seen
/// under `suffix` (empty at the nested layer itself, the nesting segment
/// above it): exactly one entry per failing field, in declaration order.
pub open spec fn nested_env_report<P: EnvProvider>(
    p: &P,
    entries: Seq<(Seq<Seq<char>>, FieldFromEnvError)>,
    suffix: Seq<Seq<char>>,
) -> bool {
    let foo = nested_env_foo(p);
    let bar = nested_env_bar(p);
    let n_foo: int = if foo is Err {
        1
    } else {
        0
    };
    let n_bar: int = if bar is Err {
        1
    } else {
        0
    };
    &&& entries.len() == n_foo + n_bar
    &&& (foo matches Err(ek) ==> env_entry_matches(entries[0], seq!["foo_env"@] + suffix, ek))
    &&& (bar matches Err(ek) ==> env_entry_matches(
        entries[n_foo],
        seq!["bar_env_multiple"@] + suffix,
        ek,
    ))
}

/// A resolved nested configuration: one required text field and one
/// optional numeric field.
#[derive(Debug)]
pub struct Nested {
    pub foo_env: String,
    pub bar_env_multiple: Option<u32>,
}

/// The partial counterpart of [`Nested`]: every field optional.
#[derive(Debug)]
pub struct NestedLayer {
    pub foo_env: Option<String>,
    pub bar_env_multiple: Option<u32>,
}

impl NestedLayer {
    /// Whether every required field is present.
    pub open spec fn fully_populated(self) -> bool {
        self.foo_env is Some
    }

    /// The value a successful resolution yields.
    pub open spec fn spec_resolved(self) -> Nested {
        Nested { foo_env: self.foo_env->0, bar_env_multiple: self.bar_env_multiple }
    }

    /// The entries a failed resolution reports, in field-declaration order.
    pub open spec fn spec_missing(self) -> Seq<(Seq<Seq<char>>, MissingFieldError)> {
        if self.foo_env is None {
            seq![(seq!["foo_env"@], MissingFieldError)]
        } else {
            Seq::<(Seq<Seq<char>>, MissingFieldError)>::empty()
        }
    }

    /// Whether this partial carries exactly the declared defaults.
    pub open spec fn is_default(self) -> bool {
        &&& self.foo_env matches Some(s) && s@ == "I am default foo!"@
        &&& self.bar_env_multiple is None
    }
}

impl HasLayer for Nested {
    type Layer = NestedLayer;
}

impl Default for NestedLayer {
    /// The declared defaults: `foo_env` has one, `bar_env_multiple` has none.
    fn default() -> (r: Self)
        ensures
            r.is_default(),
    {
        NestedLayer { foo_env: Some(String::from_str("I am default foo!")), bar_env_multiple: None }
    }
}

impl Layer for NestedLayer {
    type Complete = Nested;

    open spec fn spec_new() -> Self {
        NestedLayer { foo_env: None, bar_env_multiple: None }
    }

    open spec fn spec_merge(a: Self, b: Self) -> Self {
        NestedLayer {
            foo_env: if b.foo_env is Some {
                b.foo_env
            } else {
                a.foo_env
            },
            bar_env_multiple: if b.bar_env_multiple is Some {
                b.bar_env_multiple
            } else {
                a.bar_env_multiple
            },
        }
    }

    open spec fn complete_post(pre: Self, r: Result<Nested, CompleteError>) -> bool {
        &&& (r is Ok <==> pre.fully_populated())
        &&& (r matches Ok(c) ==> c == pre.spec_resolved())
        &&& (r is Err ==> (r matches Err(CompleteError::MissingFields(e)) && e@ =~= pre
            .spec_missing()))
    }

    fn new() -> (r: Self) {
        NestedLayer { foo_env: None, bar_env_multiple: None }
    }

    fn merge(self, other: Self) -> (r: Self) {
        NestedLayer {
            foo_env: match other.foo_env {
                Some(v) => Some(v),
                None => self.foo_env,
            },
            bar_env_multiple: match other.bar_env_multiple {
                Some(v) => Some(v),
                None => self.bar_env_multiple,
            },
        }
    }

    fn complete(self) -> (r: Result<Nested, CompleteError>) {
        let errors = MultipleFieldsError::new();
        let errors = errors.add_if_none(&self.foo_env, "foo_env");
        match errors.result() {
            Ok(()) => Ok(
                Nested { foo_env: self.foo_env.unwrap(), bar_env_multiple: self.bar_env_multiple },
            ),
            Err(e) => Err(CompleteError::MissingFields(e)),
        }
    }

    proof fn lemma_merge_identity(x: Self) {
    }

    proof fn lemma_merge_associative(a: Self, b: Self, c: Self) {
    }
}

/// A resolved top-level configuration, nesting a [`Nested`] one.
#[derive(Debug)]
pub struct Sample {
    pub with_default_foo: u32,
    pub optional_bar: Option<String>,
    pub required_baz: bool,
    pub nested: Nested,
}

/// The partial counterpart of [`Sample`]: plain fields optional, the nested
/// field itself a partial.
#[derive(Debug)]
pub struct SampleLayer {
    pub with_default_foo: Option<u32>,
    pub optional_bar: Option<String>,
    pub required_baz: Option<bool>,
    pub nested: NestedLayer,
}

impl SampleLayer {
    /// Whether every required field is present, transitively.
    pub open spec fn fully_populated(self) -> bool {
        &&& self.with_default_foo is Some
        &&& self.required_baz is Some
        &&& self.nested.fully_populated()
    }

    /// The value a successful resolution yields.
    pub open spec fn spec_resolved(self) -> Sample {
        Sample {
            with_default_foo: self.with_default_foo->0,
            optional_bar: self.optional_bar,
            required_baz: self.required_baz->0,
            nested: self.nested.spec_resolved(),
        }
    }

    /// The entries a failed resolution reports: every missing required field
    /// at every depth, in field-declaration, depth-first order.
    pub open spec fn spec_missing(self) -> Seq<(Seq<Seq<char>>, MissingFieldError)> {
        (if self.with_default_foo is None {
            seq![(seq!["with_default_foo"@], MissingFieldError)]
        } else {
            Seq::<(Seq<Seq<char>>, MissingFieldError)>::empty()
        }) + (if self.required_baz is None {
            seq![(seq!["required_baz"@], MissingFieldError)]
        } else {
            Seq::<(Seq<Seq<char>>, MissingFieldError)>::empty()
        }) + nested_entries(self.nested.spec_missing(), "nested"@)
    }

    /// Whether this partial carries exactly the declared defaults.
    pub open spec fn is_default(self) -> bool {
        &&& self.with_default_foo == Some(100u32)
        &&& self.optional_bar is None
        &&& self.required_baz is None
        &&& self.nested.is_default()
    }
}

impl HasLayer for Sample {
    type Layer = SampleLayer;
}

impl Default for SampleLayer {
    /// The declared defaults: `with_default_foo` is 100, nested fields carry
    /// their own defaults, everything else is absent.
    fn default() -> (r: Self)
        ensures
            r.is_default(),
    {
        SampleLayer {
            with_default_foo: Some(100),
            optional_bar: None,
            required_baz: None,
            nested: Default::default(),
        }
    }
}

impl Layer for SampleLayer {
    type Complete = Sample;

    open spec fn spec_new() -> Self {
        SampleLayer {
            with_default_foo: None,
            optional_bar: None,
            required_baz: None,
            nested: NestedLayer::spec_new(),
        }
    }

    open spec fn spec_merge(a: Self, b: Self) -> Self {
        SampleLayer {
            with_default_foo: if b.with_default_foo is Some {
                b.with_default_foo
            } else {
                a.with_default_foo
            },
            optional_bar: if b.optional_bar is Some {
                b.optional_bar
            } else {
                a.optional_bar
            },
            required_baz: if b.required_baz is Some {
                b.required_baz
            } else {
                a.required_baz
            },
            nested: NestedLayer::spec_merge(a.nested, b.nested),
        }
    }

    open spec fn complete_post(pre: Self, r: Result<Sample, CompleteError>) -> bool {
        &&& (r is Ok <==> pre.fully_populated())
        &&& (r matches Ok(c) ==> c == pre.spec_resolved())
        &&& (r is Err ==> (r matches Err(CompleteError::MissingFields(e)) && e@ =~= pre
            .spec_missing()))
    }

    fn new() -> (r: Self) {
        SampleLayer {
            with_default_foo: None,
            optional_bar: None,
            required_baz: None,
            nested: Layer::new(),
        }
    }

    fn merge(self, other: Self) -> (r: Self) {
        SampleLayer {
            with_default_foo: match other.with_default_foo {
                Some(v) => Some(v),
                None => self.with_default_foo,
            },
            optional_bar: match other.optional_bar {
                Some(v) => Some(v),
                None => self.optional_bar,
            },
            required_baz: match other.required_baz {
                Some(v) => Some(v),
                None => self.required_baz,
            },
            nested: Layer::merge(self.nested, other.nested),
        }
    }

    fn complete(self) -> (r: Result<Sample, CompleteError>) {
        let errors = MultipleFieldsError::new();
        let errors = errors.add_if_none(&self.with_default_foo, "with_default_foo");
        let errors = errors.add_if_none(&self.required_baz, "required_baz");
        let (nested, errors) = self.nested.complete().nest_if_err(errors, "nested");
        match errors.result() {
            Ok(()) => Ok(
                Sample {
                    with_default_foo: self.with_default_foo.unwrap(),
                    optional_bar: self.optional_bar,
                    required_baz: self.required_baz.unwrap(),
                    nested: nested.unwrap(),
                },
            ),
            Err(e) => Err(CompleteError::MissingFields(e)),
        }
    }

    proof fn lemma_merge_identity(x: Self) {
        NestedLayer::lemma_merge_identity(x.nested);
    }

    proof fn lemma_merge_associative(a: Self, b: Self, c: Self) {
        NestedLayer::lemma_merge_associative(a.nested, b.nested, c.nested);
    }
}

/// A hand-written partial with a merge of its own: the larger of the two
/// present values wins instead of the later source. It still obeys the
/// merge laws, and it resolves to its value or to `MissingSelf`.
#[derive(Debug)]
pub struct CustomLayer(pub Option<u32>);

impl Default for CustomLayer {
    fn default() -> (r: Self)
        ensures
            r == CustomLayer(Some(100u32)),
    {
        CustomLayer(Some(100))
    }
}

impl Layer for CustomLayer {
    type Complete = u32;

    open spec fn spec_new() -> Self {
        CustomLayer(None)
    }

    open spec fn spec_merge(a: Self, b: Self) -> Self {
        match (a.0, b.0) {
            (Some(x), Some(y)) => CustomLayer(
                Some(
                    if x >= y {
                        x
                    } else {
                        y
                    },
                ),
            ),
            (Some(x), None) => CustomLayer(Some(x)),
            (None, y) => CustomLayer(y),
        }
    }

    open spec fn complete_post(pre: Self, r: Result<u32, CompleteError>) -> bool {
        &&& (pre.0 matches Some(v) ==> r == Ok::<u32, CompleteError>(v))
        &&& (pre.0 is None ==> r == Err::<u32, CompleteError>(CompleteError::MissingSelf))
    }

    fn new() -> (r: Self) {
        CustomLayer(None)
    }

    fn merge(self, other: Self) -> (r: Self) {
        let inner = match (self.0, other.0) {
            (Some(a), Some(b)) => Some(
                if a >= b {
                    a
                } else {
                    b
                },
            ),
            (Some(a), None) => Some(a),
            (None, b) => b,
        };
        CustomLayer(inner)
    }

    fn complete(self) -> (r: Result<u32, CompleteError>) {
        match self.0 {
            Some(v) => Ok(v),
            None => Err(CompleteError::MissingSelf),
        }
    }

    proof fn lemma_merge_identity(x: Self) {
    }

    proof fn lemma_merge_associative(a: Self, b: Self, c: Self) {
    }
}

impl FromEnv for NestedLayer {
    /// Populates the nested layer from its declared candidate variables,
    /// collecting every per-field failure rather than stopping at the first.
    fn from_env<P: EnvProvider>(provider: &P) -> (r: Result<
        Self,
        MultipleFieldsError<FieldFromEnvError>,
    >)
        ensures
            r is Ok <==> (nested_env_foo(provider) is Ok && nested_env_bar(provider) is Ok),
            r matches Ok(l) ==> {
                &&& (l.foo_env is Some <==> nested_env_foo(provider)->Ok_0 is Some)
                &&& (l.foo_env matches Some(s) ==> nested_env_foo(provider)->Ok_0 == Some(s@))
                &&& l.bar_env_multiple == nested_env_bar(provider)->Ok_0
            },
            r matches Err(e) ==> nested_env_report(provider, e@, Seq::<Seq<char>>::empty()),
    {
        let errors = MultipleFieldsError::new();
        let (foo_env, errors) = errors.add_if_err(
            "foo_env",
            fetch_and_parse::<P, String>(provider, "FOO"),
        );
        let mut keys: Vec<&'static str> = Vec::new();
        keys.push("SPECIFIC_BAR");
        keys.push("BAR");
        proof {
            assert(keys@.map_values(|k: &str| k@) =~= seq!["SPECIFIC_BAR"@, "BAR"@]);
        }
        let (bar_env_multiple, errors) = errors.add_if_err(
            "bar_env_multiple",
            try_fetch_multiple_and_parse::<P, u32>(provider, keys.as_slice()),
        );
        proof {
            assert(seq!["foo_env"@] + Seq::<Seq<char>>::empty() =~= seq!["foo_env"@]);
            assert(seq!["bar_env_multiple"@] + Seq::<Seq<char>>::empty() =~= seq![
                "bar_env_multiple"@,
            ]);
        }
        match errors.result() {
            Ok(()) => Ok(NestedLayer { foo_env, bar_env_multiple }),
            Err(e) => Err(e),
        }
    }
}

impl FromEnv for SampleLayer {
    /// Populates the top-level layer: its own plain fields declare no
    /// environment candidates, and the nested layer is populated recursively
    /// with its failures nested under `nested`.
    fn from_env<P: EnvProvider>(provider: &P) -> (r: Result<
        Self,
        MultipleFieldsError<FieldFromEnvError>,
    >)
        ensures
            r is Ok <==> (nested_env_foo(provider) is Ok && nested_env_bar(provider) is Ok),
            r matches Ok(l) ==> {
                &&& l.with_default_foo is None
                &&& l.optional_bar is None
                &&& l.required_baz is None
                &&& (l.nested.foo_env is Some <==> nested_env_foo(provider)->Ok_0 is Some)
                &&& (l.nested.foo_env matches Some(s) ==> nested_env_foo(provider)->Ok_0 == Some(
                    s@,
                ))
                &&& l.nested.bar_env_multiple == nested_env_bar(provider)->Ok_0
            },
            r matches Err(e) ==> nested_env_report(provider, e@, seq!["nested"@]),
    {
        let errors = MultipleFieldsError::new();
        let (nested, errors) = errors.nest_if_err(NestedLayer::from_env(provider), "nested");
        proof {
            assert(seq!["foo_env"@] + Seq::<Seq<char>>::empty() =~= seq!["foo_env"@]);
            assert(seq!["bar_env_multiple"@] + Seq::<Seq<char>>::empty() =~= seq![
                "bar_env_multiple"@,
            ]);
            assert((seq!["foo_env"@] + Seq::<Seq<char>>::empty()).push("nested"@) =~= seq![
                "foo_env"@,
            ] + seq!["nested"@]);
            assert((seq!["bar_env_multiple"@] + Seq::<Seq<char>>::empty()).push("nested"@) =~= seq![
                "bar_env_multiple"@,
            ] + seq!["nested"@]);
        }
        match errors.result() {
            Ok(()) => Ok(
                SampleLayer {
                    with_default_foo: None,
                    optional_bar: None,
                    required_baz: None,
                    nested: nested.unwrap(),
                },
            ),
            Err(e) => Err(e),
        }
    }
}

impl FromEnv for CustomLayer {
    /// The custom layer reads nothing from the environment.
    fn from_env<P: EnvProvider>(provider: &P) -> (r: Result<
        Self,
        MultipleFieldsError<FieldFromEnvError>,
    >)
        ensures
            r matches Ok(l) && l == CustomLayer::spec_new(),
    {
        Ok(CustomLayer(None))
    }
}

} // verus!
