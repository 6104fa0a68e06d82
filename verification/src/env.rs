use crate::acc::MultipleFieldsError;
use crate::parse::EnvValue;
use vstd::prelude::*;
use vstd::string::StringExecFns;

verus! {

/// What a provider holds under one variable name: a text value, nothing, or
/// something present but unreadable as text.
pub enum EnvOutcome {
    Present(Seq<char>),
    Absent,
    Invalid,
}

/// A fetch error: the named variable is present but unreadable.
#[derive(Debug)]
pub struct EnvError {
    pub variable: String,
}

/// Which step of populating a field from the environment failed.
#[derive(Debug, Clone, Copy, PartialEq, Eq)]
pub enum EnvErrorKind {
    Fetch,
    Parse,
}

/// The error recorded for one field whose environment population failed,
/// carrying the variable that was being read.
#[derive(Debug)]
pub struct FieldFromEnvError {
    pub variable: String,
    pub kind: EnvErrorKind,
}

impl FieldFromEnvError {
    pub fn new(kind: EnvErrorKind, variable: String) -> (r: Self)
        ensures
            r.kind == kind,
            r.variable == variable,
    {
        Self { variable, kind }
    }
}

/// A parse failure reported as a value.
#[derive(Debug)]
pub struct ParseError;

/// The standard string-to-value parse for environment-populated fields: a
/// failure is a value, never a panic.
pub fn default_env_parse<T: EnvValue>(value: &str) -> (r: Result<T, ParseError>)
    ensures
        r is Ok <==> T::spec_parse(value@) is Some,
        r matches Ok(v) ==> T::spec_parse(value@) == Some(v@),
{
    match T::parse_env(value) {
        Some(v) => Ok(v),
        None => Err(ParseError),
    }
}

/// What examining a candidate list yields: the parsed value of the first
/// name found set — skipping absent names — or the first failure, which
/// stops the search rather than falling through.
pub open spec fn spec_env_field<P: EnvProvider, T: EnvValue>(
    p: &P,
    keys: Seq<Seq<char>>,
) -> Result<Option<<T as View>::V>, (Seq<char>, EnvErrorKind)>
    decreases keys.len(),
{
    if keys.len() == 0 {
        Ok(None)
    } else {
        match p.env_spec(keys[0]) {
            EnvOutcome::Invalid => Err((keys[0], EnvErrorKind::Fetch)),
            EnvOutcome::Present(v) => match T::spec_parse(v) {
                Some(x) => Ok(Some(x)),
                None => Err((keys[0], EnvErrorKind::Parse)),
            },
            EnvOutcome::Absent => spec_env_field::<P, T>(p, keys.drop_first()),
        }
    }
}

/// Read access to named variables, abstracted so that resolution logic never
/// touches process state itself and is deterministic under test.
pub trait EnvProvider: Sized {
    /// The provider's abstract contents at a given name.
    spec fn env_spec(&self, key: Seq<char>) -> EnvOutcome;

    /// Fetches one named variable: its text, absence, or an error for a
    /// value that is present but unreadable — never a silent absence.
    fn fetch(&self, key: &str) -> (r: Result<Option<String>, EnvError>)
        ensures
            match self.env_spec(key@) {
                EnvOutcome::Present(v) => r matches Ok(Some(s)) && s@ == v,
                EnvOutcome::Absent => r matches Ok(s) && s is None,
                EnvOutcome::Invalid => r matches Err(e) && e.variable@ == key@,
            },
    ;

}

/// Fetches one variable and parses it, turning a parse failure into a
/// field-scoped error rather than a panic.
pub fn fetch_and_parse<P: EnvProvider, T: EnvValue>(provider: &P, key: &'static str) -> (r: Result<
    Option<T>,
    FieldFromEnvError,
>)
    ensures
        match spec_env_field::<P, T>(provider, seq![key@]) {
            Ok(ov) => r matches Ok(x) && (x is Some <==> ov is Some) && (x matches Some(v) ==> ov
                == Some(v@)),
            Err(ek) => r matches Err(e) && e.variable@ == ek.0 && e.kind == ek.1,
        },
{
    proof {
        assert(seq![key@][0] == key@);
        assert(seq![key@].drop_first() =~= Seq::<Seq<char>>::empty());
        assert(spec_env_field::<P, T>(provider, Seq::<Seq<char>>::empty()) matches Ok(ov) && ov
            is None);
    }
    match provider.fetch(key) {
        Err(e) => Err(FieldFromEnvError::new(EnvErrorKind::Fetch, e.variable)),
        Ok(None) => Ok(None),
        Ok(Some(raw)) => match default_env_parse::<T>(raw.as_str()) {
            Ok(v) => Ok(Some(v)),
            Err(_) => Err(FieldFromEnvError::new(EnvErrorKind::Parse, String::from_str(key))),
        },
    }
}

/// Tries each candidate name in order: the first one found set wins; a
/// failure on an examined name surfaces instead of falling through.
pub fn try_fetch_multiple_and_parse<P: EnvProvider, T: EnvValue>(
    provider: &P,
    keys: &[&'static str],
) -> (r: Result<Option<T>, FieldFromEnvError>)
    ensures
        match spec_env_field::<P, T>(provider, keys@.map_values(|k: &str| k@)) {
            Ok(ov) => r matches Ok(x) && (x is Some <==> ov is Some) && (x matches Some(v) ==> ov
                == Some(v@)),
            Err(ek) => r matches Err(e) && e.variable@ == ek.0 && e.kind == ek.1,
        },
{
    let ghost kv: Seq<Seq<char>> = keys@.map_values(|k: &str| k@);
    let n = keys.len();
    let mut i: usize = 0;
    proof {
        assert(kv.skip(0) =~= kv);
    }
    while i < n
        invariant
            0 <= i <= n,
            n == keys@.len(),
            kv == keys@.map_values(|k: &str| k@),
            kv.len() == n,
            spec_env_field::<P, T>(provider, kv) == spec_env_field::<P, T>(
                provider,
                kv.skip(i as int),
            ),
        decreases n - i,
    {
        let key: &'static str = *vstd::slice::slice_index_get(keys, i);
        proof {
            assert(kv.skip(i as int)[0] == kv[i as int]);
            assert(kv[i as int] == key@);
            assert(seq![key@][0] == key@);
            assert(seq![key@].drop_first() =~= Seq::<Seq<char>>::empty());
            assert(kv.skip(i as int).drop_first() =~= kv.skip(i as int + 1));
            let s1 = spec_env_field::<P, T>(provider, seq![key@]);
            if provider.env_spec(key@) is Absent {
                assert(s1 == spec_env_field::<P, T>(provider, Seq::<Seq<char>>::empty()));
                assert(s1 matches Ok(ov) && ov is None);
                assert(spec_env_field::<P, T>(provider, kv.skip(i as int)) == spec_env_field::<
                    P,
                    T,
                >(provider, kv.skip(i as int + 1)));
            } else {
                assert(spec_env_field::<P, T>(provider, kv.skip(i as int)) == s1);
            }
        }
        match fetch_and_parse::<P, T>(provider, key) {
            Err(e) => {
                return Err(e);
            },
            Ok(Some(v)) => {
                return Ok(Some(v));
            },
            Ok(None) => {
                i += 1;
            },
        }
    }
    proof {
        assert(kv.skip(n as int) =~= Seq::<Seq<char>>::empty());
    }
    Ok(None)
}

/// Construction of a partial from the environment alone, collecting every
/// per-field failure into one report rather than stopping at the first.
pub trait FromEnv: Sized {
    fn from_env<P: EnvProvider>(provider: &P) -> Result<
        Self,
        MultipleFieldsError<FieldFromEnvError>,
    >;
}

impl MultipleFieldsError<FieldFromEnvError> {
    /// Records the failure of one field's environment population at `loc`,
    /// handing a fetched value through unchanged.
    pub fn add_if_err<T>(self, loc: &'static str, result: Result<Option<T>, FieldFromEnvError>) -> (r:
        (Option<T>, Self))
        ensures
            result matches Ok(v) ==> r.0 == v && r.1 == self,
            result matches Err(err) ==> r.0 is None && r.1@ =~= self@.push((seq![loc@], err)),
    {
        match result {
            Ok(value) => (value, self),
            Err(err) => (None, self.add(err, loc)),
        }
    }
}

/// An injectable in-memory provider; resolution against it is fully
/// deterministic. A later addition under the same name wins; a name can
/// also be marked unreadable to exercise fetch failures.
#[derive(Debug)]
pub struct MapEnv {
    pub entries: Vec<(String, Option<String>)>,
}

impl MapEnv {
    /// What the entry list holds under `key`: the latest entry wins, and an
    /// entry without text is present but unreadable.
    pub open spec fn lookup(entries: Seq<(String, Option<String>)>, key: Seq<char>) -> EnvOutcome
        decreases entries.len(),
    {
        if entries.len() == 0 {
            EnvOutcome::Absent
        } else if entries.last().0@ == key {
            match entries.last().1 {
                Some(v) => EnvOutcome::Present(v@),
                None => EnvOutcome::Invalid,
            }
        } else {
            Self::lookup(entries.drop_last(), key)
        }
    }

    pub fn new() -> (r: Self)
        ensures
            forall|k: Seq<char>| #[trigger] r.env_spec(k) == EnvOutcome::Absent,
    {
        Self { entries: Vec::new() }
    }

    /// Binds `key` to `value`, shadowing any earlier binding.
    pub fn add(self, key: &str, value: &str) -> (r: Self)
        ensures
            forall|k: Seq<char>| #[trigger] r.env_spec(k) == (if k == key@ {
                EnvOutcome::Present(value@)
            } else {
                self.env_spec(k)
            }),
    {
        let mut this = self;
        this.entries.push((String::from_str(key), Some(String::from_str(value))));
        proof {
            assert(this.entries@.drop_last() =~= self.entries@);
        }
        this
    }

    /// Marks `key` as present but unreadable, shadowing any earlier binding.
    pub fn add_invalid(self, key: &str) -> (r: Self)
        ensures
            forall|k: Seq<char>| #[trigger] r.env_spec(k) == (if k == key@ {
                EnvOutcome::Invalid
            } else {
                self.env_spec(k)
            }),
    {
        let mut this = self;
        this.entries.push((String::from_str(key), None));
        proof {
            assert(this.entries@.drop_last() =~= self.entries@);
        }
        this
    }
}

impl EnvProvider for MapEnv {
    open spec fn env_spec(&self, key: Seq<char>) -> EnvOutcome {
        Self::lookup(self.entries@, key)
    }

    fn fetch(&self, key: &str) -> (r: Result<Option<String>, EnvError>) {
        let k = String::from_str(key);
        let mut j: usize = self.entries.len();
        proof {
            assert(self.entries@.take(j as int) =~= self.entries@);
        }
        while j > 0
            invariant
                0 <= j <= self.entries@.len(),
                k@ == key@,
                Self::lookup(self.entries@, key@) == Self::lookup(
                    self.entries@.take(j as int),
                    key@,
                ),
            decreases j,
        {
            j -= 1;
            let e = &self.entries[j];
            proof {
                assert(self.entries@.take(j as int + 1).last() == self.entries@[j as int]);
                assert(self.entries@.take(j as int + 1).drop_last() =~= self.entries@.take(
                    j as int,
                ));
            }
            if e.0.eq(&k) {
                match &e.1 {
                    Some(v) => {
                        return Ok(Some(v.clone()));
                    },
                    None => {
                        return Err(EnvError { variable: k });
                    },
                }
            }
        }
        proof {
            assert(self.entries@.take(0) =~= Seq::<(String, Option<String>)>::empty());
        }
        Ok(None)
    }
}

} // verus!
