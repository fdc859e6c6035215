//! Sets of Unicode code points, kept as compact lists of runs.

use vstd::prelude::*;

verus! {

/// The largest Unicode code point.
pub const MAX_CODE_POINT: u32 = 0x10FFFF;

/// A run of consecutive code points, both ends included.
#[derive(Clone, Copy, Debug, PartialEq, Eq, Structural)]
pub struct CharRange {
    pub first: u32,
    pub last: u32,
}

impl CharRange {
    /// Whether the code point `c` lies in the run.
    pub open spec fn spec_contains(self, c: int) -> bool {
        self.first <= c <= self.last
    }
}

/// The code points covered by a list of runs.
pub open spec fn code_points(ranges: Seq<CharRange>) -> Set<int> {
    Set::new(|c: int| exists|i: int| 0 <= i < ranges.len() && #[trigger] ranges[i].spec_contains(c))
}

/// A list of runs is compact when every run is non-empty and within Unicode,
/// and each run starts beyond the end of every run before it, with a gap of
/// at least one code point between the two.
pub open spec fn is_compact(ranges: Seq<CharRange>) -> bool {
    &&& forall|i: int|
        0 <= i < ranges.len() ==> (#[trigger] ranges[i]).first <= ranges[i].last
            <= MAX_CODE_POINT
    &&& forall|i: int, j: int|
        0 <= i < j < ranges.len() ==> (#[trigger] ranges[i]).last + 1 < (#[trigger] ranges[j]).first
}

/// A set of Unicode code points, kept as a compact list of runs.
#[derive(Debug, PartialEq, Eq)]
pub struct CharSet {
    ranges: Vec<CharRange>,
}

impl View for CharSet {
    type V = Set<int>;

    /// The code points in the set.
    open spec fn view(&self) -> Set<int> {
        code_points(self.spec_ranges())
    }
}

impl Clone for CharSet {
    /// A set made of the same runs.
    fn clone(&self) -> (copy: CharSet)
        ensures
            copy.spec_ranges() == self.spec_ranges(),
    {
        proof {
            use_type_invariant(self);
        }
        let ranges = self.ranges.clone();
        assert(ranges@ =~= self.ranges@);
        CharSet { ranges }
    }
}

impl CharSet {
    #[verifier::type_invariant]
    closed spec fn well_formed(&self) -> bool {
        is_compact(self.ranges@)
    }

    /// The runs that make up the set, in increasing order.
    pub closed spec fn spec_ranges(&self) -> Seq<CharRange> {
        self.ranges@
    }

    /// The empty set.
    pub fn new() -> (set: CharSet)
        ensures
            set.spec_ranges() == Seq::<CharRange>::empty(),
            set@ == Set::<int>::empty(),
    {
        let set = CharSet { ranges: Vec::new() };
        assert(set@ =~= Set::<int>::empty());
        set
    }

    /// The set made of the given runs, if they are compact.
    pub fn from_ranges(ranges: Vec<CharRange>) -> (made: Option<CharSet>)
        ensures
            made is Some <==> is_compact(ranges@),
            made matches Some(set) ==> set.spec_ranges() == ranges@,
    {
        let n = ranges.len();
        let mut i: usize = 0;
        while i < n
            invariant
                n == ranges.len(),
                i <= n,
                is_compact(ranges@.take(i as int)),
            decreases n - i,
        {
            let r = ranges[i];
            if r.first > r.last || r.last > MAX_CODE_POINT {
                return None;
            }
            if i > 0 {
                assert(ranges@.take(i as int)[i - 1] == ranges@[i - 1]);
                if ranges[i - 1].last + 1 >= r.first {
                    return None;
                }
            }
            proof {
                let (before, now) = (ranges@.take(i as int), ranges@.take(i + 1));
                assert forall|j: int| 0 <= j < i implies #[trigger] now[j] == before[j] by {}
                assert forall|j: int, k: int| 0 <= j < k < i + 1 implies (#[trigger] now[j]).last
                    + 1 < (#[trigger] now[k]).first by {
                    if k == i && j < i - 1 {
                        assert(before[j].last + 1 < before[i - 1].first);
                    }
                }
            }
            i += 1;
        }
        assert(ranges@.take(n as int) =~= ranges@);
        Some(CharSet { ranges })
    }

    /// The runs that make up the set.
    pub fn ranges(&self) -> (ranges: &Vec<CharRange>)
        ensures
            ranges@ == self.spec_ranges(),
            is_compact(ranges@),
    {
        proof {
            use_type_invariant(self);
        }
        &self.ranges
    }

    /// Whether the code point `c` is in the set.
    pub fn contains(&self, c: u32) -> (found: bool)
        ensures
            found == self@.contains(c as int),
    {
        let mut i: usize = 0;
        while i < self.ranges.len()
            invariant
                i <= self.ranges.len(),
                forall|j: int| 0 <= j < i ==> !(#[trigger] self.ranges@[j]).spec_contains(c as int),
            decreases self.ranges.len() - i,
        {
            let r = self.ranges[i];
            if r.first <= c && c <= r.last {
                assert(self.ranges@[i as int].spec_contains(c as int));
                return true;
            }
            i += 1;
        }
        false
    }
}

/// The first run of a compact list is fixed by the code points that the list
/// covers: it starts at the least of them and ends before the first gap.
proof fn lemma_code_points_determine_first_run(a: Seq<CharRange>, b: Seq<CharRange>)
    requires
        is_compact(a),
        is_compact(b),
        a.len() > 0,
        b.len() > 0,
        code_points(a) == code_points(b),
    ensures
        a[0].first <= b[0].first,
        a[0].first == b[0].first ==> a[0].last <= b[0].last,
{
    let start = b[0].first as int;
    assert(b[0].spec_contains(start));
    assert(code_points(b).contains(start));
    let i = choose|i: int| 0 <= i < a.len() && #[trigger] a[i].spec_contains(start);
    if a[0].first == b[0].first && a[0].last > b[0].last {
        let next = b[0].last + 1;
        assert(a[0].spec_contains(next));
        assert(code_points(a).contains(next));
        let j = choose|j: int| 0 <= j < b.len() && #[trigger] b[j].spec_contains(next);
    }
}

/// Without its first run, a compact list is still compact, and covers the
/// code points beyond the end of that run.
proof fn lemma_code_points_of_the_rest(a: Seq<CharRange>, c: int)
    requires
        is_compact(a),
        a.len() > 0,
    ensures
        is_compact(a.drop_first()),
        code_points(a.drop_first()).contains(c) <==> code_points(a).contains(c) && c > a[0].last,
{
    let rest = a.drop_first();
    assert forall|i: int| 0 <= i < rest.len() implies #[trigger] rest[i] == a[i + 1] by {}
    if code_points(rest).contains(c) {
        let i = choose|i: int| 0 <= i < rest.len() && #[trigger] rest[i].spec_contains(c);
        assert(a[i + 1].spec_contains(c));
    }
    if code_points(a).contains(c) && c > a[0].last {
        let i = choose|i: int| 0 <= i < a.len() && #[trigger] a[i].spec_contains(c);
        assert(rest[i - 1].spec_contains(c));
    }
}

/// A compact list of runs is known by the code points it covers: two compact
/// lists that cover the same code points are the same list.
pub proof fn lemma_code_points_determine_runs(a: Seq<CharRange>, b: Seq<CharRange>)
    requires
        is_compact(a),
        is_compact(b),
        code_points(a) == code_points(b),
    ensures
        a == b,
    decreases a.len(),
{
    if a.len() == 0 || b.len() == 0 {
        assert(a.len() == 0) by {
            if a.len() > 0 {
                assert(a[0].spec_contains(a[0].first as int));
                assert(code_points(a).contains(a[0].first as int));
            }
        }
        assert(b.len() == 0) by {
            if b.len() > 0 {
                assert(b[0].spec_contains(b[0].first as int));
                assert(code_points(b).contains(b[0].first as int));
            }
        }
        assert(a =~= b);
    } else {
        assert(a[0] == b[0]) by {
            lemma_code_points_determine_first_run(a, b);
            lemma_code_points_determine_first_run(b, a);
        }
        let (rest_a, rest_b) = (a.drop_first(), b.drop_first());
        assert(is_compact(rest_a) && is_compact(rest_b)) by {
            lemma_code_points_of_the_rest(a, 0);
            lemma_code_points_of_the_rest(b, 0);
        }
        assert forall|c: int| code_points(rest_a).contains(c) == code_points(rest_b).contains(
            c,
        ) by {
            lemma_code_points_of_the_rest(a, c);
            lemma_code_points_of_the_rest(b, c);
        }
        assert(code_points(rest_a) =~= code_points(rest_b));
        lemma_code_points_determine_runs(rest_a, rest_b);
        assert(a =~= seq![a[0]] + rest_a);
        assert(b =~= seq![b[0]] + rest_b);
    }
}

/// A set is known by the code points it holds: two sets with the same code
/// points are made of the same runs.
pub proof fn lemma_set_is_known_by_its_code_points(a: CharSet, b: CharSet)
    requires
        is_compact(a.spec_ranges()),
        is_compact(b.spec_ranges()),
        a@ == b@,
    ensures
        a.spec_ranges() == b.spec_ranges(),
{
    lemma_code_points_determine_runs(a.spec_ranges(), b.spec_ranges());
}

} // verus!
