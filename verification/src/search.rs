//! The search index: fuzzy-ranks a package collection against a query.
//!
//! The empty query keeps the collection as it is; a non-empty query keeps
//! the packages whose names the matcher scores, ordered by descending
//! score.  Ties carry no promised order.

use vstd::prelude::*;
use vstd::seq_lib::group_to_multiset_ensures;

use crate::pkg::Package;

verus! {

/// What the fuzzy matcher's default configuration scores `pattern` against
/// `choice`, if they match at all.
pub uninterp spec fn fuzzy_score(choice: Seq<char>, pattern: Seq<char>) -> Option<i64>;

/// Relies on fuzzy_matcher's `SkimMatcherV2::fuzzy_match` with the default
/// options: the score is a function of the two strings alone.
#[verifier::external_body]
fn fuzzy_match_score(choice: &str, pattern: &str) -> (r: Option<i64>)
    ensures
        r == fuzzy_score(choice@, pattern@),
{
    let matcher = fuzzy_matcher::skim::SkimMatcherV2::default();
    fuzzy_matcher::FuzzyMatcher::fuzzy_match(&matcher, choice, pattern)
}

/// The score of one package's name against a query.
pub open spec fn score_of(p: Package, q: Seq<char>) -> Option<i64> {
    fuzzy_score(p.name@, q)
}

/// The packages of `src` whose names match `q`, in order, each with its
/// score.
pub open spec fn scored_models(src: Seq<Package>, q: Seq<char>) -> Seq<(Package, i64)>
    decreases src.len(),
{
    if src.len() == 0 {
        Seq::empty()
    } else {
        let rest = scored_models(src.drop_first(), q);
        match fuzzy_score(src[0].name@, q) {
            Some(s) => seq![(src[0], s)] + rest,
            None => rest,
        }
    }
}

/// Projection to the package of a scored pair.
pub open spec fn fst() -> spec_fn((Package, i64)) -> Package {
    |e: (Package, i64)| e.0
}

/// The matching packages of `src`, in source order, scores dropped.
pub open spec fn matching_models(src: Seq<Package>, q: Seq<char>) -> Seq<Package> {
    scored_models(src, q).map_values(fst())
}

/// Every scored pair carries the score of its own package.
pub proof fn lemma_scored_consistent(src: Seq<Package>, q: Seq<char>)
    ensures
        forall|k: int|
            0 <= k < scored_models(src, q).len() ==> fuzzy_score(
                #[trigger] scored_models(src, q)[k].0.name@,
                q,
            ) == Some(scored_models(src, q)[k].1),
    decreases src.len(),
{
    if src.len() > 0 {
        lemma_scored_consistent(src.drop_first(), q);
    }
}

/// Scores each package of `source` against `query`, keeping the matches.
#[verifier::loop_isolation(false)]
pub fn scored_packages(source: &Vec<Package>, query: &str) -> (out: Vec<(Package, i64)>)
    ensures
        out@ == scored_models(source@, query@),
{
    let ghost src = source@;
    let mut out: Vec<(Package, i64)> = Vec::new();
    let mut i: usize = 0;
    proof {
        assert(src.subrange(0, src.len() as int) =~= src);
        assert(out@ + scored_models(src, query@) =~= scored_models(src, query@));
    }
    while i < source.len()
        invariant
            i <= source.len(),
            out@ + scored_models(src.subrange(i as int, src.len() as int), query@)
                == scored_models(src, query@),
        decreases source.len() - i,
    {
        let ghost suffix = src.subrange(i as int, src.len() as int);
        proof {
            assert(suffix[0] == src[i as int]);
            assert(suffix.drop_first() =~= src.subrange(i + 1, src.len() as int));
        }
        let ghost old_out = out@;
        match fuzzy_match_score(source[i].name.as_str(), query) {
            Some(s) => {
                out.push((source[i].clone(), s));
                proof {
                    assert(out@ =~= old_out.push((src[i as int], s)));
                    assert(old_out + scored_models(suffix, query@) =~= out@ + scored_models(
                        suffix.drop_first(),
                        query@,
                    ));
                }
            },
            None => {},
        }
        i = i + 1;
    }
    proof {
        assert(src.subrange(src.len() as int, src.len() as int) =~= Seq::<Package>::empty());
        assert(out@ + Seq::<(Package, i64)>::empty() =~= out@);
    }
    out
}

/// Scores never increase along the sequence.
pub open spec fn sorted_desc(s: Seq<(Package, i64)>) -> bool {
    forall|i: int, j: int| 0 <= i < j < s.len() ==> s[i].1 >= s[j].1
}

/// Inserting anywhere adds exactly that element to the multiset.
pub proof fn lemma_insert_to_multiset<A>(s: Seq<A>, j: int, x: A)
    requires
        0 <= j <= s.len(),
    ensures
        s.insert(j, x).to_multiset() =~= s.to_multiset().insert(x),
{
    broadcast use group_to_multiset_ensures;

    let t = s.insert(j, x);
    assert(t.remove(j) =~= s);
    assert(t[j] == x);
    assert(t.remove(j).to_multiset() =~= t.to_multiset().remove(x));
    assert(t.to_multiset().contains(x)) by {
        assert(t.contains(x));
    }
    assert(t.to_multiset() =~= s.to_multiset().insert(x));
}

/// Reorders the pairs by descending score; which of two equally scored
/// pairs comes first is left open.
#[verifier::loop_isolation(false)]
pub fn sort_by_score_desc(v: Vec<(Package, i64)>) -> (out: Vec<(Package, i64)>)
    ensures
        sorted_desc(out@),
        out@.to_multiset() == v@.to_multiset(),
        out@.len() == v@.len(),
{
    broadcast use group_to_multiset_ensures;

    let mut out: Vec<(Package, i64)> = Vec::new();
    let mut i: usize = 0;
    proof {
        assert(v@.subrange(0, 0) =~= Seq::<(Package, i64)>::empty());
        assert(out@.to_multiset() =~= v@.subrange(0, 0).to_multiset());
    }
    while i < v.len()
        invariant
            i <= v@.len(),
            out@.len() == i,
            sorted_desc(out@),
            out@.to_multiset() == v@.subrange(0, i as int).to_multiset(),
        decreases v@.len() - i,
    {
        let x = (v[i].0.clone(), v[i].1);
        proof {
            assert(x == v@[i as int]);
        }
        let mut j: usize = 0;
        while j < out.len() && out[j].1 >= x.1
            invariant
                j <= out@.len(),
                forall|k: int| 0 <= k < j ==> out@[k].1 >= x.1,
            decreases out@.len() - j,
        {
            j = j + 1;
        }
        let ghost before = out@;
        out.insert(j, x);
        proof {
            lemma_insert_to_multiset(before, j as int, x);
            assert(v@.subrange(0, i + 1) =~= v@.subrange(0, i as int).push(v@[i as int]));
            assert(out@.to_multiset() =~= v@.subrange(0, i + 1).to_multiset());
            assert forall|a: int, b: int| 0 <= a < b < out@.len() implies out@[a].1
                >= out@[b].1 by {
                if a < j && b == j {
                } else if a == j && b > j {
                    assert(out@[b] == before[b - 1]);
                    assert(before[j as int].1 < x.1);
                    assert(before[b - 1].1 <= before[j as int].1);
                } else if a < j && b > j {
                    assert(out@[b] == before[b - 1]);
                } else if a > j {
                    assert(out@[a] == before[a - 1]);
                    assert(out@[b] == before[b - 1]);
                }
            }
        }
        i = i + 1;
    }
    proof {
        assert(v@.subrange(0, v@.len() as int) =~= v@);
    }
    out
}

/// Mapping two permutations of one another yields permutations of one
/// another.
pub proof fn lemma_map_to_multiset<A, B>(s1: Seq<A>, s2: Seq<A>, f: spec_fn(A) -> B)
    requires
        s1.to_multiset() == s2.to_multiset(),
    ensures
        s1.map_values(f).to_multiset() == s2.map_values(f).to_multiset(),
    decreases s1.len(),
{
    broadcast use group_to_multiset_ensures;

    if s1.len() == 0 {
        assert(s1.to_multiset().len() == s1.len());
        assert(s2.to_multiset().len() == s2.len());
        assert(s2.len() == 0);
        assert(s1.map_values(f) =~= s2.map_values(f));
    } else {
        let x = s1.last();
        let dl = s1.drop_last();
        assert(s1 =~= dl.push(x));
        assert(s1.to_multiset() =~= dl.to_multiset().insert(x));
        assert(s2.to_multiset().contains(x)) by {
            assert(s1.to_multiset().contains(x)) by {
                assert(s1.contains(x));
            }
        }
        assert(s2.contains(x));
        let k = choose|k: int| 0 <= k < s2.len() && s2[k] == x;
        assert(s2.remove(k).to_multiset() =~= s2.to_multiset().remove(x));
        assert(dl.to_multiset() =~= s1.to_multiset().remove(x));
        assert(dl.to_multiset() == s2.remove(k).to_multiset());
        lemma_map_to_multiset(dl, s2.remove(k), f);
        assert(s1.map_values(f) =~= dl.map_values(f).push(f(x)));
        assert(s1.map_values(f).to_multiset() =~= dl.map_values(f).to_multiset().insert(f(x)));
        assert(s2.remove(k).map_values(f) =~= s2.map_values(f).remove(k));
        assert(s2.map_values(f)[k] == f(x));
        assert(s2.map_values(f).remove(k).to_multiset() =~= s2.map_values(f).to_multiset().remove(
            f(x),
        ));
        assert(s2.map_values(f).to_multiset().contains(f(x))) by {
            assert(s2.map_values(f).contains(f(x))) by {
                assert(s2.map_values(f)[k] == f(x));
            }
        }
        assert(s1.map_values(f).to_multiset() =~= s2.map_values(f).to_multiset());
    }
}

/// What a finished ranking satisfies: the empty query keeps the source
/// whole and in order; a non-empty query keeps exactly the matching
/// packages, every one with a score, by descending score.
pub open spec fn ranked_ok(src: Seq<Package>, q: Seq<char>, out: Seq<Package>) -> bool {
    if q.len() == 0 {
        out == src
    } else {
        &&& out.to_multiset() == matching_models(src, q).to_multiset()
        &&& forall|i: int| 0 <= i < out.len() ==> (#[trigger] score_of(out[i], q)) is Some
        &&& forall|i: int, j: int|
            0 <= i < j < out.len() ==> score_of(out[i], q)->Some_0 >= score_of(out[j], q)->Some_0
    }
}

/// Copies a package collection.
#[verifier::loop_isolation(false)]
pub fn clone_packages(source: &Vec<Package>) -> (out: Vec<Package>)
    ensures
        out@ == source@,
{
    let mut out: Vec<Package> = Vec::new();
    let mut i: usize = 0;
    while i < source.len()
        invariant
            i <= source@.len(),
            out@ == source@.subrange(0, i as int),
        decreases source@.len() - i,
    {
        out.push(source[i].clone());
        proof {
            assert(source@.subrange(0, i + 1) =~= source@.subrange(0, i as int).push(
                source@[i as int],
            ));
        }
        i = i + 1;
    }
    proof {
        assert(source@.subrange(0, source@.len() as int) =~= source@);
    }
    out
}

/// Fuzzy-ranks `source` against `query`: the empty query returns the
/// collection as it is; otherwise the matching packages by descending
/// score.
#[verifier::loop_isolation(false)]
pub fn filter_and_rank(source: &Vec<Package>, query: &str) -> (out: Vec<Package>)
    ensures
        ranked_ok(source@, query@, out@),
{
    broadcast use group_to_multiset_ensures;

    if query.unicode_len() == 0 {
        return clone_packages(source);
    }
    let scored = scored_packages(source, query);
    let sorted = sort_by_score_desc(scored);
    let mut out: Vec<Package> = Vec::new();
    let mut i: usize = 0;
    while i < sorted.len()
        invariant
            i <= sorted@.len(),
            out@ == sorted@.subrange(0, i as int).map_values(fst()),
        decreases sorted@.len() - i,
    {
        out.push(sorted[i].0.clone());
        proof {
            assert(sorted@.subrange(0, i + 1) =~= sorted@.subrange(0, i as int).push(
                sorted@[i as int],
            ));
            assert(sorted@.subrange(0, i + 1).map_values(fst()) =~= sorted@.subrange(
                0,
                i as int,
            ).map_values(fst()).push(fst()(sorted@[i as int])));
        }
        i = i + 1;
    }
    proof {
        let q = query@;
        let src = source@;
        assert(sorted@.subrange(0, sorted@.len() as int) =~= sorted@);
        assert(out@ == sorted@.map_values(fst()));
        lemma_map_to_multiset(sorted@, scored_models(src, q), fst());
        assert(out@.to_multiset() == matching_models(src, q).to_multiset());
        lemma_scored_consistent(src, q);
        assert forall|k: int| 0 <= k < out@.len() implies (#[trigger] score_of(out@[k], q))
            == Some(sorted@[k].1) by {
            assert(out@[k] == sorted@[k].0);
            assert(sorted@.to_multiset().contains(sorted@[k])) by {
                assert(sorted@.contains(sorted@[k]));
            }
            assert(scored_models(src, q).to_multiset().contains(sorted@[k]));
            assert(scored_models(src, q).contains(sorted@[k]));
            let m = choose|m: int|
                0 <= m < scored_models(src, q).len() && scored_models(src, q)[m] == sorted@[k];
            assert(fuzzy_score(scored_models(src, q)[m].0.name@, q) == Some(
                scored_models(src, q)[m].1,
            ));
        }
        assert(ranked_ok(src, q, out@));
    }
    out
}

} // verus!
