use vstd::prelude::*;
use vstd::string::StringExecFns;

verus! {

broadcast use vstd::prelude::Seq::lemma_push_map_commute;

/// The views of a stored path's segments, in storage order.
pub open spec fn seg_views(path: Seq<&str>) -> Seq<Seq<char>> {
    path.map_values(|s: &str| s@)
}

/// Joining a sequence of segments with a separator, front to back.
pub open spec fn spec_join(parts: Seq<Seq<char>>, sep: Seq<char>) -> Seq<char>
    decreases parts.len(),
{
    if parts.len() <= 0 {
        Seq::<char>::empty()
    } else if parts.len() == 1 {
        parts[0]
    } else {
        parts[0] + sep + spec_join(parts.drop_first(), sep)
    }
}

/// A path is stored leaf-to-root, so a diagnostic renders it reversed,
/// root-to-leaf, with `.` between the segments.
pub open spec fn dotted_path(segments: Seq<Seq<char>>) -> Seq<char> {
    spec_join(segments.reverse(), seq!['.'])
}

pub proof fn lemma_join_push(parts: Seq<Seq<char>>, sep: Seq<char>, last: Seq<char>)
    ensures
        spec_join(parts.push(last), sep) == if parts.len() == 0 {
            last
        } else {
            spec_join(parts, sep) + sep + last
        },
    decreases parts.len(),
{
    if parts.len() == 0 {
        assert(parts.push(last)[0] == last);
        assert(spec_join(parts.push(last), sep) == last);
    } else if parts.len() == 1 {
        assert(parts.push(last).drop_first() =~= seq![last]);
        assert(seq![last][0] == last);
        assert(spec_join(seq![last], sep) == last);
        assert(spec_join(parts.push(last), sep) == parts.push(last)[0] + sep + spec_join(
            parts.push(last).drop_first(),
            sep,
        ));
        assert(parts.push(last)[0] == parts[0]);
        assert(spec_join(parts, sep) == parts[0]);
    } else {
        assert(parts.push(last).drop_first() =~= parts.drop_first().push(last));
        lemma_join_push(parts.drop_first(), sep, last);
        assert(parts.push(last)[0] == parts[0]);
        assert(spec_join(parts, sep) + sep + last =~= parts[0] + sep + (spec_join(
            parts.drop_first(),
            sep,
        ) + sep + last));
    }
}

/// Concatenating a sequence of parts, front to back, with nothing between.
pub open spec fn spec_concat(parts: Seq<Seq<char>>) -> Seq<char>
    decreases parts.len(),
{
    if parts.len() == 0 {
        Seq::<char>::empty()
    } else {
        spec_concat(parts.drop_last()) + parts.last()
    }
}

/// Joins the given parts with the separator, front to back.
pub fn join_strings(parts: &Vec<String>, sep: &str) -> (r: String)
    ensures
        r@ == spec_join(parts@.map_values(|p: String| p@), sep@),
{
    let ghost pv: Seq<Seq<char>> = parts@.map_values(|p: String| p@);
    let n = parts.len();
    let mut s = String::new();
    let mut i: usize = 0;
    proof {
        assert(pv.take(0) =~= Seq::<Seq<char>>::empty());
    }
    while i < n
        invariant
            i <= n,
            n == parts@.len(),
            pv == parts@.map_values(|p: String| p@),
            pv.len() == n,
            s@ =~= spec_join(pv.take(i as int), sep@),
        decreases n - i,
    {
        if i > 0 {
            s.append(sep);
        }
        s.append(parts[i].as_str());
        proof {
            assert(pv[i as int] == parts@[i as int]@);
            lemma_join_push(pv.take(i as int), sep@, pv[i as int]);
            assert(pv.take(i as int + 1) =~= pv.take(i as int).push(pv[i as int]));
        }
        i += 1;
    }
    proof {
        assert(pv.take(n as int) =~= pv);
    }
    s
}

/// Concatenates the given parts, front to back.
pub fn concat_strings(parts: &Vec<String>) -> (r: String)
    ensures
        r@ == spec_concat(parts@.map_values(|p: String| p@)),
{
    let ghost pv: Seq<Seq<char>> = parts@.map_values(|p: String| p@);
    let n = parts.len();
    let mut s = String::new();
    let mut i: usize = 0;
    proof {
        assert(pv.take(0) =~= Seq::<Seq<char>>::empty());
    }
    while i < n
        invariant
            i <= n,
            n == parts@.len(),
            pv == parts@.map_values(|p: String| p@),
            pv.len() == n,
            s@ =~= spec_concat(pv.take(i as int)),
        decreases n - i,
    {
        s.append(parts[i].as_str());
        proof {
            assert(pv[i as int] == parts@[i as int]@);
            assert(pv.take(i as int + 1).drop_last() =~= pv.take(i as int));
            assert(pv.take(i as int + 1).last() == pv[i as int]);
        }
        i += 1;
    }
    proof {
        assert(pv.take(n as int) =~= pv);
    }
    s
}

/// One collected value together with the field path at which it arose.
/// Segments are pushed leaf-to-root as the value travels upward through
/// nested accumulators; rendering reverses them into root-to-leaf order.
#[derive(Debug)]
pub struct WithPath<T> {
    pub path: Vec<&'static str>,
    pub value: T,
}

impl<T> WithPath<T> {
    /// The stored segments as a sequence of character sequences.
    pub open spec fn segments(self) -> Seq<Seq<char>> {
        seg_views(self.path@)
    }

    pub fn new(value: T) -> (r: Self)
        ensures
            r.segments() =~= Seq::<Seq<char>>::empty(),
            r.value == value,
    {
        Self { path: Vec::new(), value }
    }

    pub fn add_loc(self, loc: &'static str) -> (r: Self)
        ensures
            r.segments() =~= self.segments().push(loc@),
            r.value == self.value,
    {
        let mut this = self;
        this.path.push(loc);
        this
    }
}

} // verus!
