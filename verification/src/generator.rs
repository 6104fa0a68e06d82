use crate::path::{concat_strings, join_strings, spec_concat, spec_join};
use crate::schema::{
    classifies, spec_classify_err, LayerField, LayerFieldArgs, LayerParamEnv, SchemaError,
};
use vstd::prelude::*;
use vstd::string::StringExecFns;

verus! {

/// A whole type's declaration as handed to the generator: the type's name
/// and its fields' raw declarations, in declaration order.
#[derive(Debug)]
pub struct LayerArgs {
    pub ident: String,
    pub fields: Vec<LayerFieldArgs>,
}

/// One field of the intermediate representation the emitter works from.
#[derive(Debug)]
pub enum IrField {
    Plain {
        id: String,
        ty: String,
        default: Option<String>,
        env: Option<LayerParamEnv>,
        is_optional: bool,
    },
    NestedLayer { id: String, layer_ty: String },
}

/// The intermediate representation of one generated partial: the two type
/// names, which optional impls to emit, and the classified fields.
#[derive(Debug)]
pub struct Ir {
    pub ident_main: String,
    pub ident_layer: String,
    pub impl_default: bool,
    pub impl_from_env: bool,
    pub fields: Vec<IrField>,
}

/// The representation a classifiable declaration maps to.
pub open spec fn spec_ir_field(f: LayerFieldArgs) -> IrField {
    if f.nested {
        IrField::NestedLayer { id: f.ident->0, layer_ty: f.ty }
    } else {
        IrField::Plain {
            id: f.ident->0,
            ty: f.ty,
            default: f.default,
            env: f.env,
            is_optional: f.is_optional,
        }
    }
}

/// Whether a field gives the generated `default()` something to set: its
/// own declared default, or a nested partial to delegate to.
pub open spec fn wants_default(f: LayerFieldArgs) -> bool {
    f.nested || f.default is Some
}

/// Whether a field takes part in the generated environment population: its
/// own candidate list, or a nested partial to recurse into.
pub open spec fn wants_env(f: LayerFieldArgs) -> bool {
    f.nested || f.env is Some
}

impl Ir {
    /// Builds the representation: the partial's name is the type's name with
    /// `Layer` appended, every field is classified — rejecting the whole
    /// schema on the first unclassifiable one — and the optional impls are
    /// emitted exactly when some field asks for them.
    pub fn from_args(args: LayerArgs) -> (r: Result<Ir, SchemaError>)
        ensures
            r is Ok <==> (forall|i: int|
                0 <= i < args.fields@.len() ==> classifies(#[trigger] args.fields@[i])),
            r matches Ok(ir) ==> {
                &&& ir.ident_main == args.ident
                &&& ir.ident_layer@ == args.ident@ + "Layer"@
                &&& ir.fields@.len() == args.fields@.len()
                &&& (forall|i: int|
                    0 <= i < args.fields@.len() ==> #[trigger] ir.fields@[i] == spec_ir_field(
                        args.fields@[i],
                    ))
                &&& ir.impl_default == (exists|i: int|
                    0 <= i < args.fields@.len() && wants_default(#[trigger] args.fields@[i]))
                &&& ir.impl_from_env == (exists|i: int|
                    0 <= i < args.fields@.len() && wants_env(#[trigger] args.fields@[i]))
            },
            r matches Err(e) ==> (exists|i: int|
                0 <= i < args.fields@.len() && !classifies(#[trigger] args.fields@[i]) && e
                    == spec_classify_err(args.fields@[i])),
    {
        let LayerArgs { ident, fields } = args;
        let ident_main = ident.clone();
        let ident_layer = ident.concat("Layer");
        let ghost fields0: Seq<LayerFieldArgs> = fields@;
        let mut rest = fields;
        let mut out: Vec<IrField> = Vec::new();
        let mut impl_default = false;
        let mut impl_from_env = false;
        let ghost mut k: int = 0;
        proof {
            assert(rest@ =~= fields0.skip(0));
        }
        while rest.len() > 0
            invariant
                fields0 == args.fields@,
                0 <= k <= fields0.len(),
                rest@.len() == fields0.len() - k,
                rest@ =~= fields0.skip(k),
                out@.len() == k,
                forall|j: int|
                    0 <= j < k ==> classifies(#[trigger] fields0[j]) && out@[j] == spec_ir_field(
                        fields0[j],
                    ),
                impl_default == (exists|j: int|
                    0 <= j < k && wants_default(#[trigger] fields0[j])),
                impl_from_env == (exists|j: int| 0 <= j < k && wants_env(#[trigger] fields0[j])),
            decreases rest@.len(),
        {
            let ghost p0 = rest@;
            let f = rest.remove(0);
            let ghost fargs = f;
            proof {
                assert(rest@ =~= p0.skip(1));
                assert(rest@ =~= fields0.skip(k + 1));
                assert(fields0[k] == fargs);
            }
            let f_wants_default = f.nested || f.default.is_some();
            let f_wants_env = f.nested || f.env.is_some();
            let is_opt = f.is_optional;
            match LayerField::try_from_args(f) {
                Err(e) => {
                    return Err(e);
                },
                Ok(LayerField::Nested { base }) => {
                    out.push(IrField::NestedLayer { id: base.ident, layer_ty: base.ty });
                },
                Ok(LayerField::Field { base, default, env }) => {
                    out.push(
                        IrField::Plain {
                            id: base.ident,
                            ty: base.ty,
                            default,
                            env,
                            is_optional: is_opt,
                        },
                    );
                },
            }
            impl_default = impl_default || f_wants_default;
            impl_from_env = impl_from_env || f_wants_env;
            proof {
                k = k + 1;
                if f_wants_default {
                    assert(wants_default(fields0[k - 1]));
                }
                if f_wants_env {
                    assert(wants_env(fields0[k - 1]));
                }
                assert forall|j: int| 0 <= j < k && wants_default(#[trigger] fields0[j]) implies (
                exists|j2: int| 0 <= j2 < k && wants_default(#[trigger] fields0[j2])) by {}
            }
        }
        proof {
            assert(fields0.skip(k) =~= rest@);
            assert(k == fields0.len());
        }
        Ok(Ir { ident_main, ident_layer, impl_default, impl_from_env, fields: out })
    }
}

/// The `new()` initializer emitted for one field: a plain field starts
/// absent, a nested one as its own empty partial.
pub open spec fn spec_new_field(f: IrField) -> Seq<char> {
    match f {
        IrField::Plain { id, .. } => id@ + ": None"@,
        IrField::NestedLayer { id, .. } => id@ + ": ::soukousei::Layer::new()"@,
    }
}

/// The `merge` emitted for one field: right-biased for a plain field, a
/// recursive merge — never a flat override — for a nested one.
pub open spec fn spec_merge_field(f: IrField) -> Seq<char> {
    match f {
        IrField::Plain { id, .. } => id@ + ": other."@ + id@ + ".or(self."@ + id@ + ")"@,
        IrField::NestedLayer { id, .. } => id@ + ": ::soukousei::Layer::merge(self."@ + id@
            + ", other."@ + id@ + ")"@,
    }
}

/// The `default()` initializer emitted for one field: its declared default
/// if any, absence otherwise, and delegation for a nested field.
pub open spec fn spec_default_field(f: IrField) -> Seq<char> {
    match f {
        IrField::Plain { id, default: Some(d), .. } => id@ + ": Some("@ + d@ + ")"@,
        IrField::Plain { id, default: None, .. } => id@ + ": None"@,
        IrField::NestedLayer { id, .. } => id@ + ": Default::default()"@,
    }
}

/// The partial struct's field emitted for one declared field: a plain field
/// is wrapped in `Option` unless already optional; a nested field holds the
/// nested type's own partial.
pub open spec fn spec_struct_field(f: IrField) -> Seq<char> {
    match f {
        IrField::Plain { id, ty, is_optional, .. } => if is_optional {
            id@ + ": "@ + ty@
        } else {
            id@ + ": Option<"@ + ty@ + ">"@
        },
        IrField::NestedLayer { id, layer_ty } => id@ + ": <"@ + layer_ty@
            + " as ::soukousei::HasLayer>::Layer"@,
    }
}

/// The `complete` check emitted for one field: a required plain field
/// records a missing-field error when absent, an optional one nothing, and
/// a nested field resolves recursively with its failures nested under it.
pub open spec fn spec_complete_line(f: IrField) -> Seq<char> {
    match f {
        IrField::Plain { id, is_optional, .. } => if is_optional {
            Seq::<char>::empty()
        } else {
            "        let errors = errors.add_if_none(&self."@ + id@ + ", \""@ + id@ + "\");\n"@
        },
        IrField::NestedLayer { id, .. } => "        let ("@ + id@ + ", errors) = self."@ + id@
            + ".complete().nest_if_err(errors, \""@ + id@ + "\");\n"@,
    }
}

/// The constructor line emitted for one field of the resolved value.
pub open spec fn spec_complete_build_field(f: IrField) -> Seq<char> {
    match f {
        IrField::Plain { id, is_optional, .. } => if is_optional {
            id@ + ": self."@ + id@
        } else {
            id@ + ": self."@ + id@ + ".unwrap()"@
        },
        IrField::NestedLayer { id, .. } => id@ + ": "@ + id@ + ".unwrap()"@,
    }
}

/// A name inside string-literal quotes.
pub open spec fn spec_quoted(name: Seq<char>) -> Seq<char> {
    "\""@ + name + "\""@
}

/// The quoted, comma-separated candidate list of an `env` declaration.
pub open spec fn spec_candidates_list(env: LayerParamEnv) -> Seq<char> {
    spec_join(env.candidates().map_values(|n: Seq<char>| spec_quoted(n)), ", "@)
}

/// The environment-population step emitted for one field: one candidate
/// fetch for a single name, an ordered fallback for a list, recursion for a
/// nested field, and nothing for a field without candidates.
pub open spec fn spec_from_env_line(f: IrField) -> Seq<char> {
    match f {
        IrField::Plain { id, env: Some(e), .. } => match e {
            LayerParamEnv::Single(name) => "        let ("@ + id@
                + ", errors) = errors.add_if_err(\""@ + id@
                + "\", ::soukousei::env::fetch_and_parse(provider, \""@ + name@ + "\"));\n"@,
            LayerParamEnv::Multiple(_) => "        let ("@ + id@
                + ", errors) = errors.add_if_err(\""@ + id@
                + "\", ::soukousei::env::try_fetch_multiple_and_parse(provider, &["@
                + spec_candidates_list(e) + "]));\n"@,
        },
        IrField::Plain { env: None, .. } => Seq::<char>::empty(),
        IrField::NestedLayer { id, .. } => "        let ("@ + id@
            + ", errors) = errors.nest_if_err(::soukousei::env::FromEnv::from_env(provider), \""@
            + id@ + "\");\n"@,
    }
}

/// The constructor line emitted for one field of the populated partial.
pub open spec fn spec_from_env_build_field(f: IrField) -> Seq<char> {
    match f {
        IrField::Plain { id, env: Some(_), .. } => id@ + ": "@ + id@,
        IrField::Plain { id, env: None, .. } => id@ + ": None"@,
        IrField::NestedLayer { id, .. } => id@ + ": "@ + id@ + ".unwrap()"@,
    }
}

/// The `HasLayer` impl tying the type to its generated partial.
pub open spec fn spec_header(ir: Ir) -> Seq<char> {
    "impl ::soukousei::HasLayer for "@ + ir.ident_main@ + " {\n    type Layer = "@
        + ir.ident_layer@ + ";\n}\n\n"@
}

/// The generated partial struct: every plain field optional, every nested
/// field the nested type's own partial.
pub open spec fn spec_struct_decl(ir: Ir) -> Seq<char> {
    "pub struct "@ + ir.ident_layer@ + " {\n    "@ + spec_join(
        ir.fields@.map_values(|f: IrField| spec_struct_field(f)),
        ",\n    "@,
    ) + ",\n}\n\n"@
}

/// The generated `Layer` impl: empty construction, right-biased merge, and
/// a resolution that reports every missing required field in one pass.
pub open spec fn spec_layer_impl(ir: Ir) -> Seq<char> {
    "impl ::soukousei::Layer for "@ + ir.ident_layer@ + " {\n    type Complete = "@
        + ir.ident_main@
        + ";\n\n    fn new() -> Self {\n        Self {\n            "@ + spec_join(
        ir.fields@.map_values(|f: IrField| spec_new_field(f)),
        ",\n            "@,
    )
        + ",\n        }\n    }\n\n    fn merge(self, other: Self) -> Self {\n        Self {\n            "@
        + spec_join(ir.fields@.map_values(|f: IrField| spec_merge_field(f)), ",\n            "@)
        + ",\n        }\n    }\n\n    fn complete(self) -> Result<Self::Complete, ::soukousei::CompleteError> {\n        let errors = ::soukousei::MultipleFieldsError::new();\n"@
        + spec_concat(ir.fields@.map_values(|f: IrField| spec_complete_line(f)))
        + "        match errors.result() {\n            Err(e) => Err(::soukousei::CompleteError::MissingFields(e)),\n            Ok(()) => Ok(Self::Complete {\n                "@
        + spec_join(
        ir.fields@.map_values(|f: IrField| spec_complete_build_field(f)),
        ",\n                "@,
    ) + ",\n            }),\n        }\n    }\n}\n\n"@
}

/// The generated `Default` impl, emitted only when some field asks for it.
pub open spec fn spec_default_impl(ir: Ir) -> Seq<char> {
    "impl Default for "@ + ir.ident_layer@
        + " {\n    fn default() -> Self {\n        Self {\n            "@ + spec_join(
        ir.fields@.map_values(|f: IrField| spec_default_field(f)),
        ",\n            "@,
    ) + ",\n        }\n    }\n}\n\n"@
}

/// The generated `FromEnv` impl, emitted only when some field asks for it:
/// candidate fetches in declaration order, nested recursion, and one batch
/// report of every per-field failure.
pub open spec fn spec_from_env_impl(ir: Ir) -> Seq<char> {
    "impl ::soukousei::env::FromEnv for "@ + ir.ident_layer@
        + " {\n    fn from_env<P: ::soukousei::env::EnvProvider>(provider: &P) -> Result<Self, ::soukousei::MultipleFieldsError<::soukousei::env::FieldFromEnvError>> {\n        let errors = ::soukousei::MultipleFieldsError::new();\n"@
        + spec_concat(ir.fields@.map_values(|f: IrField| spec_from_env_line(f)))
        + "        match errors.result() {\n            Err(e) => Err(e),\n            Ok(()) => Ok(Self {\n                "@
        + spec_join(
        ir.fields@.map_values(|f: IrField| spec_from_env_build_field(f)),
        ",\n                "@,
    ) + ",\n            }),\n        }\n    }\n}\n\n"@
}

/// The whole generated text for one declared type.
pub open spec fn spec_codegen(ir: Ir) -> Seq<char> {
    let base = spec_header(ir) + spec_struct_decl(ir) + spec_layer_impl(ir);
    let with_default = if ir.impl_default {
        base + spec_default_impl(ir)
    } else {
        base
    };
    if ir.impl_from_env {
        with_default + spec_from_env_impl(ir)
    } else {
        with_default
    }
}

impl IrField {
    pub fn codegen_new(&self) -> (r: String)
        ensures
            r@ == spec_new_field(*self),
    {
        match self {
            IrField::Plain { id, .. } => {
                let mut s = id.clone();
                s.append(": None");
                s
            },
            IrField::NestedLayer { id, .. } => {
                let mut s = id.clone();
                s.append(": ::soukousei::Layer::new()");
                s
            },
        }
    }

    pub fn codegen_merge(&self) -> (r: String)
        ensures
            r@ == spec_merge_field(*self),
    {
        match self {
            IrField::Plain { id, .. } => {
                let mut s = id.clone();
                s.append(": other.");
                s.append(id.as_str());
                s.append(".or(self.");
                s.append(id.as_str());
                s.append(")");
                s
            },
            IrField::NestedLayer { id, .. } => {
                let mut s = id.clone();
                s.append(": ::soukousei::Layer::merge(self.");
                s.append(id.as_str());
                s.append(", other.");
                s.append(id.as_str());
                s.append(")");
                s
            },
        }
    }

    pub fn codegen_default(&self) -> (r: String)
        ensures
            r@ == spec_default_field(*self),
    {
        match self {
            IrField::Plain { id, default: Some(d), .. } => {
                let mut s = id.clone();
                s.append(": Some(");
                s.append(d.as_str());
                s.append(")");
                s
            },
            IrField::Plain { id, default: None, .. } => {
                let mut s = id.clone();
                s.append(": None");
                s
            },
            IrField::NestedLayer { id, .. } => {
                let mut s = id.clone();
                s.append(": Default::default()");
                s
            },
        }
    }

    pub fn codegen_struct_field(&self) -> (r: String)
        ensures
            r@ == spec_struct_field(*self),
    {
        match self {
            IrField::Plain { id, ty, is_optional, .. } => {
                let mut s = id.clone();
                if *is_optional {
                    s.append(": ");
                    s.append(ty.as_str());
                } else {
                    s.append(": Option<");
                    s.append(ty.as_str());
                    s.append(">");
                }
                s
            },
            IrField::NestedLayer { id, layer_ty } => {
                let mut s = id.clone();
                s.append(": <");
                s.append(layer_ty.as_str());
                s.append(" as ::soukousei::HasLayer>::Layer");
                s
            },
        }
    }

    pub fn codegen_complete_line(&self) -> (r: String)
        ensures
            r@ == spec_complete_line(*self),
    {
        match self {
            IrField::Plain { id, is_optional, .. } => {
                if *is_optional {
                    String::new()
                } else {
                    let mut s = String::from_str("        let errors = errors.add_if_none(&self.");
                    s.append(id.as_str());
                    s.append(", \"");
                    s.append(id.as_str());
                    s.append("\");\n");
                    s
                }
            },
            IrField::NestedLayer { id, .. } => {
                let mut s = String::from_str("        let (");
                s.append(id.as_str());
                s.append(", errors) = self.");
                s.append(id.as_str());
                s.append(".complete().nest_if_err(errors, \"");
                s.append(id.as_str());
                s.append("\");\n");
                s
            },
        }
    }

    pub fn codegen_complete_build(&self) -> (r: String)
        ensures
            r@ == spec_complete_build_field(*self),
    {
        match self {
            IrField::Plain { id, is_optional, .. } => {
                let mut s = id.clone();
                s.append(": self.");
                s.append(id.as_str());
                if !*is_optional {
                    s.append(".unwrap()");
                }
                s
            },
            IrField::NestedLayer { id, .. } => {
                let mut s = id.clone();
                s.append(": ");
                s.append(id.as_str());
                s.append(".unwrap()");
                s
            },
        }
    }

    pub fn codegen_from_env_line(&self) -> (r: String)
        ensures
            r@ == spec_from_env_line(*self),
    {
        match self {
            IrField::Plain { id, env: Some(e), .. } => {
                let mut s = String::from_str("        let (");
                s.append(id.as_str());
                s.append(", errors) = errors.add_if_err(\"");
                s.append(id.as_str());
                match e {
                    LayerParamEnv::Single(name) => {
                        s.append("\", ::soukousei::env::fetch_and_parse(provider, \"");
                        s.append(name.as_str());
                        s.append("\"));\n");
                    },
                    LayerParamEnv::Multiple(names) => {
                        s.append(
                            "\", ::soukousei::env::try_fetch_multiple_and_parse(provider, &[",
                        );
                        let mut quoted: Vec<String> = Vec::new();
                        let mut i: usize = 0;
                        while i < names.len()
                            invariant
                                i <= names@.len(),
                                quoted@.len() == i,
                                forall|j: int|
                                    0 <= j < i ==> #[trigger] quoted@[j]@ == spec_quoted(
                                        names@[j]@,
                                    ),
                            decreases names@.len() - i,
                        {
                            let mut q = String::from_str("\"");
                            q.append(names[i].as_str());
                            q.append("\"");
                            quoted.push(q);
                            i += 1;
                        }
                        let list = join_strings(&quoted, ", ");
                        proof {
                            assert(quoted@.map_values(|p: String| p@) =~= names@.map_values(
                                |n: String| n@,
                            ).map_values(|n: Seq<char>| spec_quoted(n)));
                        }
                        s.append(list.as_str());
                        s.append("]));\n");
                    },
                }
                s
            },
            IrField::Plain { env: None, .. } => String::new(),
            IrField::NestedLayer { id, .. } => {
                let mut s = String::from_str("        let (");
                s.append(id.as_str());
                s.append(
                    ", errors) = errors.nest_if_err(::soukousei::env::FromEnv::from_env(provider), \"",
                );
                s.append(id.as_str());
                s.append("\");\n");
                s
            },
        }
    }

    pub fn codegen_from_env_build(&self) -> (r: String)
        ensures
            r@ == spec_from_env_build_field(*self),
    {
        match self {
            IrField::Plain { id, env: Some(_), .. } => {
                let mut s = id.clone();
                s.append(": ");
                s.append(id.as_str());
                s
            },
            IrField::Plain { id, env: None, .. } => {
                let mut s = id.clone();
                s.append(": None");
                s
            },
            IrField::NestedLayer { id, .. } => {
                let mut s = id.clone();
                s.append(": ");
                s.append(id.as_str());
                s.append(".unwrap()");
                s
            },
        }
    }
}

impl Ir {
    fn codegen_new_fields(&self) -> (r: String)
        ensures
            r@ == spec_join(
                self.fields@.map_values(|f: IrField| spec_new_field(f)),
                ",\n            "@,
            ),
    {
        let mut parts: Vec<String> = Vec::new();
        let mut i: usize = 0;
        while i < self.fields.len()
            invariant
                i <= self.fields@.len(),
                parts@.len() == i,
                forall|j: int|
                    0 <= j < i ==> #[trigger] parts@[j]@ == spec_new_field(self.fields@[j]),
            decreases self.fields@.len() - i,
        {
            parts.push(self.fields[i].codegen_new());
            i += 1;
        }
        proof {
            assert(parts@.map_values(|p: String| p@) =~= self.fields@.map_values(
                |f: IrField| spec_new_field(f),
            ));
        }
        join_strings(&parts, ",\n            ")
    }

    fn codegen_fields_merge(&self) -> (r: String)
        ensures
            r@ == spec_join(
                self.fields@.map_values(|f: IrField| spec_merge_field(f)),
                ",\n            "@,
            ),
    {
        let mut parts: Vec<String> = Vec::new();
        let mut i: usize = 0;
        while i < self.fields.len()
            invariant
                i <= self.fields@.len(),
                parts@.len() == i,
                forall|j: int|
                    0 <= j < i ==> #[trigger] parts@[j]@ == spec_merge_field(self.fields@[j]),
            decreases self.fields@.len() - i,
        {
            parts.push(self.fields[i].codegen_merge());
            i += 1;
        }
        proof {
            assert(parts@.map_values(|p: String| p@) =~= self.fields@.map_values(
                |f: IrField| spec_merge_field(f),
            ));
        }
        join_strings(&parts, ",\n            ")
    }

    fn codegen_fields_default(&self) -> (r: String)
        ensures
            r@ == spec_join(
                self.fields@.map_values(|f: IrField| spec_default_field(f)),
                ",\n            "@,
            ),
    {
        let mut parts: Vec<String> = Vec::new();
        let mut i: usize = 0;
        while i < self.fields.len()
            invariant
                i <= self.fields@.len(),
                parts@.len() == i,
                forall|j: int|
                    0 <= j < i ==> #[trigger] parts@[j]@ == spec_default_field(self.fields@[j]),
            decreases self.fields@.len() - i,
        {
            parts.push(self.fields[i].codegen_default());
            i += 1;
        }
        proof {
            assert(parts@.map_values(|p: String| p@) =~= self.fields@.map_values(
                |f: IrField| spec_default_field(f),
            ));
        }
        join_strings(&parts, ",\n            ")
    }

    fn codegen_fields_struct(&self) -> (r: String)
        ensures
            r@ == spec_join(
                self.fields@.map_values(|f: IrField| spec_struct_field(f)),
                ",\n    "@,
            ),
    {
        let mut parts: Vec<String> = Vec::new();
        let mut i: usize = 0;
        while i < self.fields.len()
            invariant
                i <= self.fields@.len(),
                parts@.len() == i,
                forall|j: int|
                    0 <= j < i ==> #[trigger] parts@[j]@ == spec_struct_field(self.fields@[j]),
            decreases self.fields@.len() - i,
        {
            parts.push(self.fields[i].codegen_struct_field());
            i += 1;
        }
        proof {
            assert(parts@.map_values(|p: String| p@) =~= self.fields@.map_values(
                |f: IrField| spec_struct_field(f),
            ));
        }
        join_strings(&parts, ",\n    ")
    }

    fn codegen_complete_lines(&self) -> (r: String)
        ensures
            r@ == spec_concat(self.fields@.map_values(|f: IrField| spec_complete_line(f))),
    {
        let mut parts: Vec<String> = Vec::new();
        let mut i: usize = 0;
        while i < self.fields.len()
            invariant
                i <= self.fields@.len(),
                parts@.len() == i,
                forall|j: int|
                    0 <= j < i ==> #[trigger] parts@[j]@ == spec_complete_line(self.fields@[j]),
            decreases self.fields@.len() - i,
        {
            parts.push(self.fields[i].codegen_complete_line());
            i += 1;
        }
        proof {
            assert(parts@.map_values(|p: String| p@) =~= self.fields@.map_values(
                |f: IrField| spec_complete_line(f),
            ));
        }
        concat_strings(&parts)
    }

    fn codegen_complete_builds(&self) -> (r: String)
        ensures
            r@ == spec_join(
                self.fields@.map_values(|f: IrField| spec_complete_build_field(f)),
                ",\n                "@,
            ),
    {
        let mut parts: Vec<String> = Vec::new();
        let mut i: usize = 0;
        while i < self.fields.len()
            invariant
                i <= self.fields@.len(),
                parts@.len() == i,
                forall|j: int|
                    0 <= j < i ==> #[trigger] parts@[j]@ == spec_complete_build_field(
                        self.fields@[j],
                    ),
            decreases self.fields@.len() - i,
        {
            parts.push(self.fields[i].codegen_complete_build());
            i += 1;
        }
        proof {
            assert(parts@.map_values(|p: String| p@) =~= self.fields@.map_values(
                |f: IrField| spec_complete_build_field(f),
            ));
        }
        join_strings(&parts, ",\n                ")
    }

    fn codegen_from_env_lines(&self) -> (r: String)
        ensures
            r@ == spec_concat(self.fields@.map_values(|f: IrField| spec_from_env_line(f))),
    {
        let mut parts: Vec<String> = Vec::new();
        let mut i: usize = 0;
        while i < self.fields.len()
            invariant
                i <= self.fields@.len(),
                parts@.len() == i,
                forall|j: int|
                    0 <= j < i ==> #[trigger] parts@[j]@ == spec_from_env_line(self.fields@[j]),
            decreases self.fields@.len() - i,
        {
            parts.push(self.fields[i].codegen_from_env_line());
            i += 1;
        }
        proof {
            assert(parts@.map_values(|p: String| p@) =~= self.fields@.map_values(
                |f: IrField| spec_from_env_line(f),
            ));
        }
        concat_strings(&parts)
    }

    fn codegen_from_env_builds(&self) -> (r: String)
        ensures
            r@ == spec_join(
                self.fields@.map_values(|f: IrField| spec_from_env_build_field(f)),
                ",\n                "@,
            ),
    {
        let mut parts: Vec<String> = Vec::new();
        let mut i: usize = 0;
        while i < self.fields.len()
            invariant
                i <= self.fields@.len(),
                parts@.len() == i,
                forall|j: int|
                    0 <= j < i ==> #[trigger] parts@[j]@ == spec_from_env_build_field(
                        self.fields@[j],
                    ),
            decreases self.fields@.len() - i,
        {
            parts.push(self.fields[i].codegen_from_env_build());
            i += 1;
        }
        proof {
            assert(parts@.map_values(|p: String| p@) =~= self.fields@.map_values(
                |f: IrField| spec_from_env_build_field(f),
            ));
        }
        join_strings(&parts, ",\n                ")
    }

    fn codegen_header(&self) -> (r: String)
        ensures
            r@ == spec_header(*self),
    {
        let mut s = String::from_str("impl ::soukousei::HasLayer for ");
        s.append(self.ident_main.as_str());
        s.append(" {\n    type Layer = ");
        s.append(self.ident_layer.as_str());
        s.append(";\n}\n\n");
        s
    }

    fn codegen_struct_decl(&self) -> (r: String)
        ensures
            r@ == spec_struct_decl(*self),
    {
        let mut s = String::from_str("pub struct ");
        s.append(self.ident_layer.as_str());
        s.append(" {\n    ");
        let fields = self.codegen_fields_struct();
        s.append(fields.as_str());
        s.append(",\n}\n\n");
        s
    }

    fn codegen_layer_impl(&self) -> (r: String)
        ensures
            r@ == spec_layer_impl(*self),
    {
        let mut s = String::from_str("impl ::soukousei::Layer for ");
        s.append(self.ident_layer.as_str());
        s.append(" {\n    type Complete = ");
        s.append(self.ident_main.as_str());
        s.append(";\n\n    fn new() -> Self {\n        Self {\n            ");
        let part = self.codegen_new_fields();
        s.append(part.as_str());
        s.append(
            ",\n        }\n    }\n\n    fn merge(self, other: Self) -> Self {\n        Self {\n            ",
        );
        let part = self.codegen_fields_merge();
        s.append(part.as_str());
        s.append(
            ",\n        }\n    }\n\n    fn complete(self) -> Result<Self::Complete, ::soukousei::CompleteError> {\n        let errors = ::soukousei::MultipleFieldsError::new();\n",
        );
        let part = self.codegen_complete_lines();
        s.append(part.as_str());
        s.append(
            "        match errors.result() {\n            Err(e) => Err(::soukousei::CompleteError::MissingFields(e)),\n            Ok(()) => Ok(Self::Complete {\n                ",
        );
        let part = self.codegen_complete_builds();
        s.append(part.as_str());
        s.append(",\n            }),\n        }\n    }\n}\n\n");
        s
    }

    fn codegen_default_impl(&self) -> (r: String)
        ensures
            r@ == spec_default_impl(*self),
    {
        let mut s = String::from_str("impl Default for ");
        s.append(self.ident_layer.as_str());
        s.append(" {\n    fn default() -> Self {\n        Self {\n            ");
        let part = self.codegen_fields_default();
        s.append(part.as_str());
        s.append(",\n        }\n    }\n}\n\n");
        s
    }

    fn codegen_from_env_impl(&self) -> (r: String)
        ensures
            r@ == spec_from_env_impl(*self),
    {
        let mut s = String::from_str("impl ::soukousei::env::FromEnv for ");
        s.append(self.ident_layer.as_str());
        s.append(
            " {\n    fn from_env<P: ::soukousei::env::EnvProvider>(provider: &P) -> Result<Self, ::soukousei::MultipleFieldsError<::soukousei::env::FieldFromEnvError>> {\n        let errors = ::soukousei::MultipleFieldsError::new();\n",
        );
        let part = self.codegen_from_env_lines();
        s.append(part.as_str());
        s.append(
            "        match errors.result() {\n            Err(e) => Err(e),\n            Ok(()) => Ok(Self {\n                ",
        );
        let part = self.codegen_from_env_builds();
        s.append(part.as_str());
        s.append(",\n            }),\n        }\n    }\n}\n\n");
        s
    }

    /// Emits the whole conforming implementation for this representation:
    /// the tie-in impl, the partial struct, its `Layer` impl, and the
    /// optional `Default` and `FromEnv` impls.
    pub fn codegen(&self) -> (r: String)
        ensures
            r@ == spec_codegen(*self),
    {
        let mut s = self.codegen_header();
        let part = self.codegen_struct_decl();
        s.append(part.as_str());
        let part = self.codegen_layer_impl();
        s.append(part.as_str());
        if self.impl_default {
            let part = self.codegen_default_impl();
            s.append(part.as_str());
        }
        if self.impl_from_env {
            let part = self.codegen_from_env_impl();
            s.append(part.as_str());
        }
        s
    }
}

} // verus!
