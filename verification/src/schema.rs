use vstd::prelude::*;

verus! {

/// The declared environment candidates of one field: a single variable name
/// or an ordered fallback list.
#[derive(Debug, PartialEq, Eq)]
pub enum LayerParamEnv {
    Single(String),
    Multiple(Vec<String>),
}

impl LayerParamEnv {
    /// The ordered candidate list the declaration denotes.
    pub open spec fn candidates(self) -> Seq<Seq<char>> {
        match self {
            LayerParamEnv::Single(s) => seq![s@],
            LayerParamEnv::Multiple(v) => v@.map_values(|s: String| s@),
        }
    }
}

/// A restricted model of an attribute value as an attribute parser hands it
/// over: a string literal, an array of values, or anything else.
#[derive(Debug)]
pub enum MetaExpr {
    Str(String),
    Array(Vec<MetaExpr>),
    Other,
}

/// A rejected schema declaration. Schema errors are generation-time only:
/// they fail the build and never surface as a runtime error kind.
#[derive(Debug, PartialEq, Eq)]
pub enum SchemaError {
    UnnamedField,
    NestedWithDefault,
    NestedWithEnv,
    UnexpectedExpr,
}

impl LayerParamEnv {
    /// Reads an `env` declaration: a string literal names one variable, a
    /// non-empty array of string literals an ordered fallback list, and
    /// anything else is rejected.
    pub fn from_expr(expr: &MetaExpr) -> (r: Result<LayerParamEnv, SchemaError>)
        ensures
            r is Ok <==> (expr matches MetaExpr::Str(_) || (expr matches MetaExpr::Array(elems)
                && elems@.len() > 0 && (forall|i: int|
                0 <= i < elems@.len() ==> #[trigger] elems@[i] is Str))),
            expr matches MetaExpr::Str(s) ==> r == Ok::<LayerParamEnv, SchemaError>(
                LayerParamEnv::Single(*s),
            ),
            expr matches MetaExpr::Array(elems) ==> (r matches Ok(le) ==> (le matches
                LayerParamEnv::Multiple(names) && names@.len() == elems@.len() && (forall|i: int|
                0 <= i < elems@.len() ==> #[trigger] names@[i] == elems@[i]->Str_0))),
            r matches Err(e) ==> e == SchemaError::UnexpectedExpr,
    {
        match expr {
            MetaExpr::Str(s) => Ok(LayerParamEnv::Single(s.clone())),
            MetaExpr::Array(elems) => {
                if elems.len() == 0 {
                    return Err(SchemaError::UnexpectedExpr);
                }
                let mut names: Vec<String> = Vec::new();
                let mut i: usize = 0;
                while i < elems.len()
                    invariant
                        *expr == MetaExpr::Array(*elems),
                        elems@.len() > 0,
                        0 <= i <= elems@.len(),
                        names@.len() == i,
                        forall|j: int|
                            0 <= j < i ==> #[trigger] elems@[j] is Str && names@[j]
                                == elems@[j]->Str_0,
                    decreases elems@.len() - i,
                {
                    let elem = &elems[i];
                    match elem {
                        MetaExpr::Str(s) => {
                            names.push(s.clone());
                        },
                        _ => {
                            return Err(SchemaError::UnexpectedExpr);
                        },
                    }
                    i += 1;
                }
                Ok(LayerParamEnv::Multiple(names))
            },
            MetaExpr::Other => Err(SchemaError::UnexpectedExpr),
        }
    }
}

/// One field's raw declaration, as read off the containing type: its name,
/// its declared type, whether that type is already optional, and the three
/// recognized options.
#[derive(Debug)]
pub struct LayerFieldArgs {
    pub ident: Option<String>,
    pub ty: String,
    pub is_optional: bool,
    pub default: Option<String>,
    pub env: Option<LayerParamEnv>,
    pub nested: bool,
}

/// The name and declared type a classified field keeps.
#[derive(Debug)]
pub struct LayerFieldBase {
    pub ident: String,
    pub ty: String,
}

/// A classified field: exactly one of nested — delegating wholly to the
/// nested type's own partial — or plain, with an optional default and an
/// optional candidate list.
#[derive(Debug)]
pub enum LayerField {
    Nested { base: LayerFieldBase },
    Field { base: LayerFieldBase, default: Option<String>, env: Option<LayerParamEnv> },
}

/// Whether a declaration is classifiable at all: it must be named, and
/// `nested` excludes both `default` and `env`.
pub open spec fn classifies(f: LayerFieldArgs) -> bool {
    f.ident is Some && (!f.nested || (f.default is None && f.env is None))
}

/// The error an unclassifiable declaration is rejected with.
pub open spec fn spec_classify_err(f: LayerFieldArgs) -> SchemaError {
    if f.ident is None {
        SchemaError::UnnamedField
    } else if f.default is Some {
        SchemaError::NestedWithDefault
    } else {
        SchemaError::NestedWithEnv
    }
}

impl LayerField {
    /// Classifies one declaration: a field declared `nested` together with a
    /// `default` or an `env` is rejected here, at generation time, never at
    /// runtime.
    pub fn try_from_args(args: LayerFieldArgs) -> (r: Result<LayerField, SchemaError>)
        ensures
            r is Ok <==> classifies(args),
            r matches Err(e) ==> e == spec_classify_err(args),
            (classifies(args) && args.nested) ==> r == Ok::<LayerField, SchemaError>(
                LayerField::Nested {
                    base: LayerFieldBase { ident: args.ident->0, ty: args.ty },
                },
            ),
            (classifies(args) && !args.nested) ==> r == Ok::<LayerField, SchemaError>(
                LayerField::Field {
                    base: LayerFieldBase { ident: args.ident->0, ty: args.ty },
                    default: args.default,
                    env: args.env,
                },
            ),
    {
        let LayerFieldArgs { ident, ty, is_optional: _, default, env, nested } = args;
        let ident = match ident {
            Some(id) => id,
            None => {
                return Err(SchemaError::UnnamedField);
            },
        };
        let base = LayerFieldBase { ident, ty };
        match (nested, default, env) {
            (true, None, None) => Ok(LayerField::Nested { base }),
            (false, default, env) => Ok(LayerField::Field { base, default, env }),
            (true, Some(_), _) => Err(SchemaError::NestedWithDefault),
            (true, None, Some(_)) => Err(SchemaError::NestedWithEnv),
        }
    }
}

} // verus!
