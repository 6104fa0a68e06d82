use crate::path::{dotted_path, seg_views, spec_join, lemma_join_push, WithPath};
use vstd::prelude::*;
use vstd::string::StringExecFns;

verus! {

broadcast use vstd::prelude::Seq::lemma_push_map_commute;

/// The abstract contents of an accumulator: one `(path, error)` pair per
/// collected field, with the path segments in storage (leaf-to-root) order.
pub open spec fn acc_entries<T>(paths: Seq<WithPath<T>>) -> Seq<(Seq<Seq<char>>, T)> {
    paths.map_values(|wp: WithPath<T>| (wp.segments(), wp.value))
}

/// What nesting under a segment does to the contents: the segment is pushed
/// onto every entry's stored path.
pub open spec fn nested_entries<T>(entries: Seq<(Seq<Seq<char>>, T)>, loc: Seq<char>) -> Seq<
    (Seq<Seq<char>>, T),
> {
    entries.map_values(|e: (Seq<Seq<char>>, T)| (e.0.push(loc), e.1))
}

/// An ordered collection of values, each at a field path; the substrate of
/// the batch error report.
#[derive(Debug)]
pub struct FieldsAcc<T> {
    pub paths: Vec<WithPath<T>>,
}

impl<T> View for FieldsAcc<T> {
    type V = Seq<(Seq<Seq<char>>, T)>;

    open spec fn view(&self) -> Self::V {
        acc_entries(self.paths@)
    }
}

impl<T> FieldsAcc<T> {
    pub fn new() -> (r: Self)
        ensures
            r@ =~= Seq::<(Seq<Seq<char>>, T)>::empty(),
    {
        Self { paths: Vec::new() }
    }

    /// Appends one entry at the single-segment path `loc`.
    pub fn add_field(&mut self, value: T, loc: &'static str)
        ensures
            final(self)@ =~= old(self)@.push((seq![loc@], value)),
    {
        self.paths.push(WithPath::new(value).add_loc(loc));
    }

    /// Folds `other`'s entries into `self`, prefixing each of `other`'s
    /// rendered paths with `loc`; no entry is lost and the order is kept.
    pub fn nest(&mut self, other: Self, loc: &'static str)
        ensures
            final(self)@ =~= old(self)@ + nested_entries(other@, loc@),
    {
        let mut rest = other;
        let ghost rest0: Seq<(Seq<Seq<char>>, T)> = rest@;
        let ghost self0: Seq<(Seq<Seq<char>>, T)> = self@;
        let ghost mut k: int = 0;
        while rest.paths.len() > 0
            invariant
                0 <= k <= rest0.len(),
                rest.paths@.len() == rest0.len() - k,
                rest@ =~= rest0.skip(k),
                self@ =~= self0 + nested_entries(rest0.take(k), loc@),
            decreases rest.paths@.len(),
        {
            let ghost p0 = rest.paths@;
            let nested_path = rest.paths.remove(0);
            proof {
                assert(rest.paths@ =~= p0.skip(1));
                assert(rest0.skip(k)[0] == (nested_path.segments(), nested_path.value));
            }
            self.paths.push(nested_path.add_loc(loc));
            proof {
                k = k + 1;
                assert forall|i: int| 0 <= i < rest.paths@.len() implies acc_entries(rest.paths@)[i]
                    == rest0.skip(k)[i] by {
                    assert(rest.paths@[i] == p0[i + 1]);
                    assert(acc_entries(p0)[i + 1] == rest0.skip(k - 1)[i + 1]);
                }
                assert(rest@ =~= rest0.skip(k));
                assert(rest0.take(k) =~= rest0.take(k - 1).push(rest0[k - 1]));
                assert(self@ =~= self0 + nested_entries(rest0.take(k), loc@));
            }
        }
        proof {
            assert(rest0.take(k) =~= rest0);
        }
    }

    pub fn is_empty(&self) -> (r: bool)
        ensures
            r == (self@.len() == 0),
    {
        self.paths.len() == 0
    }
}

/// The leaf error recorded for a required field that is absent at resolution.
#[derive(Debug)]
pub struct MissingFieldError;

/// Why resolution of a partial value failed: either the value as a whole was
/// never supplied (`MissingSelf`), or some of its fields were (`MissingFields`).
#[derive(Debug)]
pub enum CompleteError {
    MissingSelf,
    MissingFields(MultipleFieldsError<MissingFieldError>),
}

impl From<MultipleFieldsError<MissingFieldError>> for CompleteError {
    fn from(value: MultipleFieldsError<MissingFieldError>) -> (r: Self) {
        CompleteError::MissingFields(value)
    }
}

impl vstd::std_specs::convert::FromSpecImpl<MultipleFieldsError<MissingFieldError>>
    for CompleteError {
    open spec fn obeys_from_spec() -> bool {
        true
    }

    open spec fn from_spec(value: MultipleFieldsError<MissingFieldError>) -> Self {
        CompleteError::MissingFields(value)
    }
}

/// A batch of leaf errors, each at a field path: the report a failed
/// resolution hands back, never just the first failure.
#[derive(Debug)]
pub struct MultipleFieldsError<T> {
    pub fields: FieldsAcc<T>,
}

impl<T> View for MultipleFieldsError<T> {
    type V = Seq<(Seq<Seq<char>>, T)>;

    open spec fn view(&self) -> Self::V {
        self.fields@
    }
}

impl<T> MultipleFieldsError<T> {
    pub fn new() -> (r: Self)
        ensures
            r@ =~= Seq::<(Seq<Seq<char>>, T)>::empty(),
    {
        Self { fields: FieldsAcc::new() }
    }

    pub fn add(self, err: T, loc: &'static str) -> (r: Self)
        ensures
            r@ =~= self@.push((seq![loc@], err)),
    {
        let mut this = self;
        this.fields.add_field(err, loc);
        this
    }

    pub fn nest(self, other: Self, loc: &'static str) -> (r: Self)
        ensures
            r@ =~= self@ + nested_entries(other@, loc@),
    {
        let mut this = self;
        this.fields.nest(other.fields, loc);
        this
    }

    /// On `Ok` hands the value through; on `Err` folds the inner report in
    /// under `loc` and hands back no value.
    pub fn nest_if_err<U>(self, result: Result<U, Self>, loc: &'static str) -> (r: (Option<U>, Self))
        ensures
            result matches Ok(value) ==> r.0 == Some(value) && r.1 == self,
            result matches Err(err) ==> r.0 is None && r.1@ =~= self@ + nested_entries(err@, loc@),
    {
        match result {
            Ok(value) => (Some(value), self),
            Err(err) => (None, self.nest(err, loc)),
        }
    }

    /// An empty report means success; a non-empty one is the error itself.
    pub fn result(self) -> (r: Result<(), Self>)
        ensures
            r is Ok <==> self@.len() == 0,
            r matches Err(e) ==> e == self,
    {
        if self.fields.is_empty() {
            Ok(())
        } else {
            Err(self)
        }
    }
}

impl MultipleFieldsError<MissingFieldError> {
    /// Records a missing-field error at `loc` exactly when the given
    /// optional is empty.
    pub fn add_if_none<T>(self, option: &Option<T>, loc: &'static str) -> (r: Self)
        ensures
            option is Some ==> r == self,
            option is None ==> r@ =~= self@.push((seq![loc@], MissingFieldError)),
    {
        if option.is_none() {
            return self.add(MissingFieldError, loc);
        }
        self
    }
}

/// One rendered entry of a failed resolution: the dot-joined root-to-leaf
/// path and the leaf error found there.
#[derive(Debug)]
pub struct FieldError<T> {
    pub path: String,
    pub main: T,
}

/// The rendered report: every failing field of one resolution, in the order
/// the fields were visited.
#[derive(Debug)]
pub struct FieldsErrorBunch<T> {
    pub items: Vec<FieldError<T>>,
}

/// Renders a stored (leaf-to-root) path as the dot-joined root-to-leaf string.
pub fn render_dotted(path: &Vec<&'static str>) -> (r: String)
    ensures
        r@ =~= dotted_path(seg_views(path@)),
{
    let ghost rev: Seq<Seq<char>> = seg_views(path@).reverse();
    let n = path.len();
    let mut s = String::new();
    let mut k: usize = 0;
    proof {
        assert(rev.take(0) =~= Seq::<Seq<char>>::empty());
    }
    while k < n
        invariant
            k <= n,
            n == path@.len(),
            rev == seg_views(path@).reverse(),
            rev.len() == n,
            s@ =~= spec_join(rev.take(k as int), seq!['.']),
        decreases n - k,
    {
        if k > 0 {
            s.append(".");
        }
        let seg: &'static str = path[n - 1 - k];
        s.append(seg);
        proof {
            reveal_strlit(".");
            assert("."@ =~= seq!['.']);
            assert(rev[k as int] == seg@);
            lemma_join_push(rev.take(k as int), seq!['.'], rev[k as int]);
            assert(rev.take(k as int + 1) =~= rev.take(k as int).push(rev[k as int]));
        }
        k += 1;
    }
    proof {
        assert(rev.take(n as int) =~= rev);
    }
    s
}

impl<T> MultipleFieldsError<T> {
    /// Renders the report into `(dotted.path, error)` pairs, in order.
    pub fn into_diagnostic(self) -> (r: FieldsErrorBunch<T>)
        ensures
            r.items@.len() == self@.len(),
            forall|i: int|
                0 <= i < self@.len() ==> #[trigger] r.items@[i].path@ =~= dotted_path(self@[i].0)
                    && r.items@[i].main == self@[i].1,
    {
        let ghost entries0: Seq<(Seq<Seq<char>>, T)> = self@;
        let mut rest = self.fields.paths;
        let ghost mut k: int = 0;
        let mut items: Vec<FieldError<T>> = Vec::new();
        while rest.len() > 0
            invariant
                0 <= k <= entries0.len(),
                rest@.len() == entries0.len() - k,
                acc_entries(rest@) =~= entries0.skip(k),
                items@.len() == k,
                forall|i: int|
                    0 <= i < k ==> #[trigger] items@[i].path@ =~= dotted_path(entries0[i].0)
                        && items@[i].main == entries0[i].1,
            decreases rest@.len(),
        {
            let ghost p0 = rest@;
            let wp = rest.remove(0);
            proof {
                assert(rest@ =~= p0.skip(1));
                assert(entries0.skip(k)[0] == (wp.segments(), wp.value));
            }
            let path = render_dotted(&wp.path);
            items.push(FieldError { path, main: wp.value });
            proof {
                k = k + 1;
                assert forall|i: int| 0 <= i < rest@.len() implies acc_entries(rest@)[i]
                    == entries0.skip(k)[i] by {
                    assert(rest@[i] == p0[i + 1]);
                    assert(acc_entries(p0)[i + 1] == entries0.skip(k - 1)[i + 1]);
                }
                assert(acc_entries(rest@) =~= entries0.skip(k));
            }
        }
        FieldsErrorBunch { items }
    }
}

/// Folding a nested resolution's outcome into a parent report: success hands
/// the value through; a nested failure is folded in under `loc`, and a value
/// that was never supplied at all is recorded as one missing field at `loc`.
pub trait ResultExt<T, E>: Sized {
    fn nest_if_err(self, errors: MultipleFieldsError<E>, loc: &'static str) -> (Option<
        T,
    >, MultipleFieldsError<E>);
}

impl<T> ResultExt<T, MissingFieldError> for Result<T, CompleteError> {
    fn nest_if_err(self, errors: MultipleFieldsError<MissingFieldError>, loc: &'static str) -> (r: (
        Option<T>,
        MultipleFieldsError<MissingFieldError>,
    ))
        ensures
            self matches Ok(value) ==> r.0 == Some(value) && r.1 == errors,
            self matches Err(CompleteError::MissingFields(acc)) ==> r.0 is None && r.1@ =~= errors@
                + nested_entries(acc@, loc@),
            self matches Err(CompleteError::MissingSelf) ==> r.0 is None && r.1@ =~= errors@.push(
                (seq![loc@], MissingFieldError),
            ),
    {
        match self {
            Ok(value) => (Some(value), errors),
            Err(err) => {
                let errors = match err {
                    CompleteError::MissingFields(acc) => errors.nest(acc, loc),
                    CompleteError::MissingSelf => errors.add(MissingFieldError, loc),
                };
                (None, errors)
            },
        }
    }
}

} // verus!
