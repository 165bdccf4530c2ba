//! Incremental search over the station catalog.
//!
//! Given the full catalog and a query string, the filter produces, in
//! catalog order, every station whose display name contains the query as
//! a substring, comparing ASCII letters without regard to case. An empty
//! query matches every station. The result list is recomputed from
//! scratch on every query edit; nothing is updated incrementally.

use vstd::prelude::*;

use crate::api::{Station, StationV};

verus! {

/// ASCII lowercasing of one character: `'A'..='Z'` map to their
/// lowercase counterparts, every other character is unchanged.
pub open spec fn spec_lower_char(c: char) -> char {
    match c {
        'A' => 'a',
        'B' => 'b',
        'C' => 'c',
        'D' => 'd',
        'E' => 'e',
        'F' => 'f',
        'G' => 'g',
        'H' => 'h',
        'I' => 'i',
        'J' => 'j',
        'K' => 'k',
        'L' => 'l',
        'M' => 'm',
        'N' => 'n',
        'O' => 'o',
        'P' => 'p',
        'Q' => 'q',
        'R' => 'r',
        'S' => 's',
        'T' => 't',
        'U' => 'u',
        'V' => 'v',
        'W' => 'w',
        'X' => 'x',
        'Y' => 'y',
        'Z' => 'z',
        _ => c,
    }
}

/// A text with every ASCII letter lowercased.
pub open spec fn lower_seq(s: Seq<char>) -> Seq<char> {
    Seq::new(s.len(), |i: int| spec_lower_char(s[i]))
}

/// The characters of `needle` appear in `hay` starting at position `i`.
pub open spec fn matches_at(hay: Seq<char>, needle: Seq<char>, i: int) -> bool {
    forall|j: int| 0 <= j < needle.len() ==> hay[i + j] == needle[j]
}

/// `needle` occurs contiguously somewhere in `hay`. The empty needle
/// occurs in every text.
pub open spec fn is_substring(hay: Seq<char>, needle: Seq<char>) -> bool {
    exists|i: int| 0 <= i && i + needle.len() <= hay.len() && matches_at(hay, needle, i)
}

/// A station name matches a query when the lowercased query occurs in
/// the lowercased name.
pub open spec fn name_matches(name: Seq<char>, query: Seq<char>) -> bool {
    is_substring(lower_seq(name), lower_seq(query))
}

/// The catalog narrowed to the stations whose name matches the query,
/// in catalog order.
pub open spec fn spec_filter(stations: Seq<StationV>, query: Seq<char>) -> Seq<StationV> {
    stations.filter(|st: StationV| name_matches(st.name, query))
}

/// ASCII lowercasing of one character.
pub fn lower_char(c: char) -> (r: char)
    ensures
        r == spec_lower_char(c),
{
    match c {
        'A' => 'a',
        'B' => 'b',
        'C' => 'c',
        'D' => 'd',
        'E' => 'e',
        'F' => 'f',
        'G' => 'g',
        'H' => 'h',
        'I' => 'i',
        'J' => 'j',
        'K' => 'k',
        'L' => 'l',
        'M' => 'm',
        'N' => 'n',
        'O' => 'o',
        'P' => 'p',
        'Q' => 'q',
        'R' => 'r',
        'S' => 's',
        'T' => 't',
        'U' => 'u',
        'V' => 'v',
        'W' => 'w',
        'X' => 'x',
        'Y' => 'y',
        'Z' => 'z',
        _ => c,
    }
}

/// Whether `name` contains the query as a substring, ignoring ASCII
/// case.
pub fn name_contains(name: &str, query: &Vec<char>) -> (r: bool)
    ensures
        r == name_matches(name@, query@),
{
    let n: usize = name.unicode_len();
    let m: usize = query.len();
    if m > n {
        return false;
    }
    let mut i: usize = 0;
    while i <= n - m
        invariant
            m <= n,
            n == name@.len(),
            m == query@.len(),
            i <= n - m + 1,
            forall|i2: int| 0 <= i2 < i ==> !matches_at(lower_seq(name@), lower_seq(query@), i2),
        decreases n - m + 1 - i,
    {
        let mut j: usize = 0;
        let mut mismatch: bool = false;
        while j < m
            invariant
                m <= n,
                n == name@.len(),
                m == query@.len(),
                i <= n - m,
                j <= m,
                !mismatch ==> forall|j2: int|
                    0 <= j2 < j ==> lower_seq(name@)[i + j2] == lower_seq(query@)[j2],
                mismatch ==> !matches_at(lower_seq(name@), lower_seq(query@), i as int),
            decreases m - j,
        {
            if lower_char(name.get_char(i + j)) != lower_char(query[j]) {
                proof {
                    assert(lower_seq(name@)[i + j] != lower_seq(query@)[j as int]);
                }
                mismatch = true;
                j = m;
            } else {
                j = j + 1;
            }
        }
        if !mismatch {
            proof {
                assert(matches_at(lower_seq(name@), lower_seq(query@), i as int));
            }
            return true;
        }
        i = i + 1;
    }
    proof {
        assert forall|i2: int| 0 <= i2 && i2 + lower_seq(query@).len() <= lower_seq(
            name@,
        ).len() implies !matches_at(lower_seq(name@), lower_seq(query@), i2) by {
            assert(i2 < i);
        }
    }
    false
}

/// `a` can be obtained from `b` by deleting elements without reordering
/// the ones that remain.
pub open spec fn is_subseq_of<A>(a: Seq<A>, b: Seq<A>) -> bool
    decreases b.len(),
{
    if a.len() == 0 {
        true
    } else if b.len() == 0 {
        false
    } else if a.last() == b.last() {
        is_subseq_of(a.drop_last(), b.drop_last()) || is_subseq_of(a, b.drop_last())
    } else {
        is_subseq_of(a, b.drop_last())
    }
}

/// Filtering deletes elements but never reorders them: the filtered
/// sequence is a subsequence of the original.
proof fn lemma_filter_is_subseq<A>(s: Seq<A>, p: spec_fn(A) -> bool)
    ensures
        is_subseq_of(s.filter(p), s),
    decreases s.len(),
{
    reveal(Seq::filter);
    if s.len() == 0 {
    } else {
        let dl = s.drop_last();
        lemma_filter_is_subseq(dl, p);
        let a = s.filter(p);
        if p(s.last()) {
            assert(a == dl.filter(p).push(s.last()));
            assert(a.last() == s.last());
            assert(a.drop_last() =~= dl.filter(p));
        } else {
            assert(a == dl.filter(p));
            if a.len() > 0 {
                assert(is_subseq_of(a, dl));
            }
        }
    }
}

/// A filter whose test accepts every element returns the sequence
/// unchanged.
proof fn lemma_filter_all_true<A>(s: Seq<A>, p: spec_fn(A) -> bool)
    requires
        forall|i: int| 0 <= i < s.len() ==> p(s[i]),
    ensures
        s.filter(p) == s,
    decreases s.len(),
{
    reveal(Seq::filter);
    if s.len() == 0 {
    } else {
        let dl = s.drop_last();
        lemma_filter_all_true(dl, p);
        assert(p(s.last()));
        assert(dl.push(s.last()) =~= s);
    }
}

/// Every element of a subsequence is an element of the longer sequence.
proof fn lemma_subseq_contains<A>(a: Seq<A>, b: Seq<A>)
    requires
        is_subseq_of(a, b),
    ensures
        forall|x: A| a.contains(x) ==> b.contains(x),
    decreases b.len(),
{
    assert forall|x: A| a.contains(x) implies b.contains(x) by {
        if a.len() > 0 {
            let i = choose|i: int| 0 <= i < a.len() && a[i] == x;
            if a.last() == b.last() && is_subseq_of(a.drop_last(), b.drop_last()) {
                if i < a.len() - 1 {
                    assert(a.drop_last()[i] == x);
                    assert(a.drop_last().contains(x));
                    lemma_subseq_contains(a.drop_last(), b.drop_last());
                    let j = choose|j: int| 0 <= j < b.drop_last().len() && b.drop_last()[j] == x;
                    assert(b[j] == x);
                } else {
                    assert(b[b.len() - 1] == x);
                }
            } else {
                assert(is_subseq_of(a, b.drop_last()));
                lemma_subseq_contains(a, b.drop_last());
                let j = choose|j: int| 0 <= j < b.drop_last().len() && b.drop_last()[j] == x;
                assert(b[j] == x);
            }
        }
    }
}

/// The empty query matches every station name.
pub proof fn lemma_empty_query_matches(name: Seq<char>)
    ensures
        forall|q: Seq<char>| q.len() == 0 ==> name_matches(name, q),
{
    assert forall|q: Seq<char>| q.len() == 0 implies name_matches(name, q) by {
        assert(matches_at(lower_seq(name), lower_seq(q), 0));
        assert(0 + lower_seq(q).len() <= lower_seq(name).len());
    }
}

/// Laws of the search filter: the result keeps catalog order and is a
/// subset of the catalog, every station it contains matches the query,
/// and the empty query returns the whole catalog.
pub proof fn lemma_filter_properties(stations: Seq<StationV>, query: Seq<char>)
    ensures
        is_subseq_of(spec_filter(stations, query), stations),
        forall|i: int|
            0 <= i < spec_filter(stations, query).len() ==> name_matches(
                #[trigger] spec_filter(stations, query)[i].name,
                query,
            ) && stations.contains(spec_filter(stations, query)[i]),
        query.len() == 0 ==> spec_filter(stations, query) == stations,
{
    let p = |st: StationV| name_matches(st.name, query);
    lemma_filter_is_subseq(stations, p);
    assert forall|i: int| 0 <= i < spec_filter(stations, query).len() implies name_matches(
        #[trigger] spec_filter(stations, query)[i].name,
        query,
    ) && stations.contains(spec_filter(stations, query)[i]) by {
        stations.lemma_filter_pred(p, i);
        let st = spec_filter(stations, query)[i];
        assert(stations.filter(p).contains(st));
        lemma_subseq_contains(stations.filter(p), stations);
    }
    if query.len() == 0 {
        assert forall|i: int| 0 <= i < stations.len() implies p(stations[i]) by {
            lemma_empty_query_matches(stations[i].name);
        }
        lemma_filter_all_true(stations, p);
    }
}

/// Matching ignores ASCII case entirely: two queries that lowercase to
/// the same text filter the catalog identically.
pub proof fn lemma_filter_case_insensitive(stations: Seq<StationV>, q1: Seq<char>, q2: Seq<char>)
    requires
        lower_seq(q1) == lower_seq(q2),
    ensures
        spec_filter(stations, q1) == spec_filter(stations, q2),
{
    let p1 = |st: StationV| name_matches(st.name, q1);
    let p2 = |st: StationV| name_matches(st.name, q2);
    assert(p1 =~= p2);
}

/// One step of the filter: extending the scanned prefix by one station
/// either appends that station to the filtered prefix or leaves it
/// unchanged, according to whether its name matches.
proof fn lemma_filter_take_step<A>(s: Seq<A>, p: spec_fn(A) -> bool, i: int)
    requires
        0 <= i < s.len(),
    ensures
        s.take(i + 1).filter(p) == if p(s[i]) {
            s.take(i).filter(p).push(s[i])
        } else {
            s.take(i).filter(p)
        },
{
    reveal(Seq::filter);
    assert(s.take(i + 1).drop_last() =~= s.take(i));
    assert(s.take(i + 1).last() == s[i]);
}

/// Narrow the catalog to the stations whose display name contains the
/// query as a substring, ignoring ASCII case, keeping catalog order.
pub fn filter_stations(stations: &Vec<Station>, query: &Vec<char>) -> (r: Vec<Station>)
    ensures
        r.deep_view() == spec_filter(stations.deep_view(), query@),
{
    let ghost p = |st: StationV| name_matches(st.name, query@);
    let mut out: Vec<Station> = Vec::new();
    proof {
        reveal(Seq::filter);
        assert(stations.deep_view().take(0).filter(p) =~= Seq::<StationV>::empty());
    }
    let mut i: usize = 0;
    while i < stations.len()
        invariant
            i <= stations@.len(),
            stations.deep_view().len() == stations@.len(),
            query@.len() == query.len(),
            out.deep_view() == stations.deep_view().take(i as int).filter(p),
            p == (|st: StationV| name_matches(st.name, query@)),
        decreases stations@.len() - i,
    {
        let st = &stations[i];
        proof {
            assert(st.deep_view() == stations.deep_view()[i as int]);
            lemma_filter_take_step(stations.deep_view(), p, i as int);
        }
        if name_contains(st.name.as_str(), query) {
            let copy = st.clone();
            out.push(copy);
            proof {
                assert(out.deep_view() =~= stations.deep_view().take(i + 1).filter(p));
            }
        } else {
            proof {
                assert(out.deep_view() =~= stations.deep_view().take(i + 1).filter(p));
            }
        }
        i = i + 1;
    }
    proof {
        assert(stations.deep_view().take(stations@.len() as int) =~= stations.deep_view());
    }
    out
}

} // verus!
