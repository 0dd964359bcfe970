//! The order of texts (as `String`'s `Ord` compares them: character by
//! character, a proper prefix first) and the sorts built on it.

use vstd::prelude::*;
use crate::strs::{chars_of, owned, strings_view};

verus! {

broadcast use vstd::seq_lib::group_to_multiset_ensures;

/// Whether text `a` comes strictly before text `b`: at the first
/// character where they differ the smaller code point wins; a proper
/// prefix comes first.
pub open spec fn text_lt(a: Seq<char>, b: Seq<char>) -> bool
    decreases a.len(),
{
    if a.len() == 0 {
        b.len() > 0
    } else if b.len() == 0 {
        false
    } else if a[0] != b[0] {
        (a[0] as int) < (b[0] as int)
    } else {
        text_lt(a.drop_first(), b.drop_first())
    }
}

/// No text comes before itself.
pub proof fn lemma_text_lt_irreflexive(a: Seq<char>)
    ensures
        !text_lt(a, a),
    decreases a.len(),
{
    if a.len() > 0 {
        lemma_text_lt_irreflexive(a.drop_first());
    }
}

/// Of two texts, one comes first, unless they are equal; never both.
pub proof fn lemma_text_lt_total(a: Seq<char>, b: Seq<char>)
    ensures
        a != b ==> text_lt(a, b) || text_lt(b, a),
        !(text_lt(a, b) && text_lt(b, a)),
    decreases a.len(),
{
    if a.len() > 0 && b.len() > 0 {
        lemma_text_lt_total(a.drop_first(), b.drop_first());
        if a[0] == b[0] && a.drop_first() == b.drop_first() {
            assert(a =~= seq![a[0]] + a.drop_first());
            assert(b =~= seq![b[0]] + b.drop_first());
        }
    } else if a.len() == 0 && b.len() == 0 {
        assert(a =~= b);
    }
}

/// The order is transitive.
pub proof fn lemma_text_lt_transitive(a: Seq<char>, b: Seq<char>, c: Seq<char>)
    requires
        text_lt(a, b),
        text_lt(b, c),
    ensures
        text_lt(a, c),
    decreases a.len(),
{
    if a.len() > 0 && b.len() > 0 && c.len() > 0 {
        if a[0] == b[0] && b[0] == c[0] {
            lemma_text_lt_transitive(a.drop_first(), b.drop_first(), c.drop_first());
        }
    }
}

fn less_from(x: &Vec<char>, y: &Vec<char>, i: usize) -> (r: bool)
    requires
        i <= x@.len(),
        i <= y@.len(),
    ensures
        r == text_lt(x@.skip(i as int), y@.skip(i as int)),
    decreases x@.len() - i,
{
    let ghost xs = x@.skip(i as int);
    let ghost ys = y@.skip(i as int);
    if i == x.len() {
        return i < y.len();
    }
    if i == y.len() {
        return false;
    }
    assert(xs[0] == x@[i as int] && ys[0] == y@[i as int]);
    if x[i] != y[i] {
        return x[i] < y[i];
    }
    assert(xs.drop_first() =~= x@.skip(i + 1));
    assert(ys.drop_first() =~= y@.skip(i + 1));
    less_from(x, y, i + 1)
}

/// Whether text `a` comes strictly before text `b`.
pub fn text_less(a: &str, b: &str) -> (r: bool)
    ensures
        r == text_lt(a@, b@),
{
    let x = chars_of(a);
    let y = chars_of(b);
    assert(x@.skip(0) =~= x@);
    assert(y@.skip(0) =~= y@);
    less_from(&x, &y, 0)
}

/// Whether texts are in descending order.
pub open spec fn sorted_desc(s: Seq<Seq<char>>) -> bool {
    forall|i: int, j: int| 0 <= i < j < s.len() ==> !text_lt(#[trigger] s[i], #[trigger] s[j])
}

/// Whether name/value pairs are in ascending order of their names.
pub open spec fn sorted_by_name(s: Seq<(Seq<char>, Seq<char>)>) -> bool {
    forall|i: int, j: int| 0 <= i < j < s.len() ==> !text_lt(#[trigger] s[j].0, #[trigger] s[i].0)
}

/// Plain view of name/value pairs.
pub open spec fn pairs_view(v: Seq<(String, String)>) -> Seq<(Seq<char>, Seq<char>)> {
    v.map_values(|p: (String, String)| (p.0@, p.1@))
}

/// The index of a greatest text in `v` (the first such).
fn index_of_greatest(v: &Vec<String>) -> (m: usize)
    requires
        v@.len() > 0,
    ensures
        m < v@.len(),
        forall|k: int| 0 <= k < v@.len() ==> !text_lt(v@[m as int]@, #[trigger] v@[k]@),
{
    let mut m: usize = 0;
    let mut j: usize = 1;
    proof {
        lemma_text_lt_irreflexive(v@[0]@);
    }
    while j < v.len()
        invariant
            0 < j <= v@.len(),
            m < j,
            forall|k: int| 0 <= k < j ==> !text_lt(v@[m as int]@, #[trigger] v@[k]@),
        decreases v.len() - j,
    {
        if text_less(v[m].as_str(), v[j].as_str()) {
            proof {
                assert forall|k: int| 0 <= k <= j implies !text_lt(v@[j as int]@, #[trigger] v@[k]@) by {
                    lemma_text_lt_total(v@[k]@, v@[m as int]@);
                    lemma_text_lt_total(v@[j as int]@, v@[m as int]@);
                    lemma_text_lt_irreflexive(v@[j as int]@);
                    if k < j {
                        if text_lt(v@[k]@, v@[m as int]@) {
                            lemma_text_lt_transitive(v@[k]@, v@[m as int]@, v@[j as int]@);
                        }
                        lemma_text_lt_total(v@[k]@, v@[j as int]@);
                    }
                }
            }
            m = j;
        }
        j = j + 1;
    }
    m
}

/// The texts in descending order (greatest first): the same texts, each
/// as often, none before a greater one.
pub fn sort_desc(v: &Vec<String>) -> (r: Vec<String>)
    ensures
        strings_view(r@).to_multiset() == strings_view(v@).to_multiset(),
        sorted_desc(strings_view(r@)),
{
    let mut rest: Vec<String> = Vec::new();
    let mut i: usize = 0;
    while i < v.len()
        invariant
            i <= v@.len(),
            strings_view(rest@) == strings_view(v@.subrange(0, i as int)),
        decreases v.len() - i,
    {
        let ghost before = rest@;
        rest.push(owned(v[i].as_str()));
        assert(strings_view(rest@) =~= strings_view(before).push(v@[i as int]@));
        assert(strings_view(v@.subrange(0, i + 1)) =~= strings_view(v@.subrange(0, i as int)).push(v@[i as int]@));
        i = i + 1;
    }
    assert(v@.subrange(0, i as int) =~= v@);
    let ghost total = strings_view(v@).to_multiset();
    let mut r: Vec<String> = Vec::new();
    while rest.len() > 0
        invariant
            strings_view(r@).to_multiset().add(strings_view(rest@).to_multiset()) == total,
            sorted_desc(strings_view(r@)),
            forall|a: int, b: int| 0 <= a < r@.len() && 0 <= b < rest@.len() ==> !text_lt(#[trigger] r@[a]@, #[trigger] rest@[b]@),
        decreases rest@.len(),
    {
        let m = index_of_greatest(&rest);
        let ghost before_r = r@;
        let ghost before_rest = rest@;
        let x = rest.remove(m);
        proof {
            assert(strings_view(rest@) =~= strings_view(before_rest).remove(m as int));
            assert(strings_view(before_rest)[m as int] == x@);
        }
        r.push(x);
        proof {
            assert(strings_view(r@) =~= strings_view(before_r).push(x@));
            assert(strings_view(r@).to_multiset().add(strings_view(rest@).to_multiset()) =~= total);
            assert forall|a: int, b: int| 0 <= a < r@.len() && 0 <= b < rest@.len() implies !text_lt(
                #[trigger] r@[a]@,
                #[trigger] rest@[b]@,
            ) by {
                if b < m {
                    assert(rest@[b] == before_rest[b]);
                } else {
                    assert(rest@[b] == before_rest[b + 1]);
                }
                if a < before_r.len() {
                    assert(r@[a] == before_r[a]);
                }
            }
            assert forall|a: int, b: int| 0 <= a < b < strings_view(r@).len() implies !text_lt(
                #[trigger] strings_view(r@)[a],
                #[trigger] strings_view(r@)[b],
            ) by {
                if b < before_r.len() {
                    assert(strings_view(r@)[a] == strings_view(before_r)[a]);
                    assert(strings_view(r@)[b] == strings_view(before_r)[b]);
                } else {
                    assert(r@[a] == before_r[a]);
                    assert(before_rest[m as int] == x);
                }
            }
        }
    }
    assert(strings_view(rest@).to_multiset() =~= vstd::multiset::Multiset::empty());
    assert(strings_view(r@).to_multiset() =~= total);
    r
}

/// The index of a pair with the least name in `v` (the first such).
fn index_of_least_name(v: &Vec<(String, String)>) -> (m: usize)
    requires
        v@.len() > 0,
    ensures
        m < v@.len(),
        forall|k: int| 0 <= k < v@.len() ==> !text_lt(#[trigger] v@[k].0@, v@[m as int].0@),
{
    let mut m: usize = 0;
    let mut j: usize = 1;
    proof {
        lemma_text_lt_irreflexive(v@[0].0@);
    }
    while j < v.len()
        invariant
            0 < j <= v@.len(),
            m < j,
            forall|k: int| 0 <= k < j ==> !text_lt(#[trigger] v@[k].0@, v@[m as int].0@),
        decreases v.len() - j,
    {
        if text_less(v[j].0.as_str(), v[m].0.as_str()) {
            proof {
                assert forall|k: int| 0 <= k <= j implies !text_lt(#[trigger] v@[k].0@, v@[j as int].0@) by {
                    lemma_text_lt_total(v@[k].0@, v@[m as int].0@);
                    lemma_text_lt_total(v@[j as int].0@, v@[m as int].0@);
                    lemma_text_lt_irreflexive(v@[j as int].0@);
                    if k < j {
                        if text_lt(v@[m as int].0@, v@[k].0@) {
                            lemma_text_lt_transitive(v@[j as int].0@, v@[m as int].0@, v@[k].0@);
                        }
                        lemma_text_lt_total(v@[k].0@, v@[j as int].0@);
                    }
                }
            }
            m = j;
        }
        j = j + 1;
    }
    m
}

/// Name/value pairs in ascending order of their names: the same pairs,
/// each as often, none after one with a greater name.
pub fn sort_by_name(v: &Vec<(String, String)>) -> (r: Vec<(String, String)>)
    ensures
        pairs_view(r@).to_multiset() == pairs_view(v@).to_multiset(),
        sorted_by_name(pairs_view(r@)),
{
    let mut rest: Vec<(String, String)> = Vec::new();
    let mut i: usize = 0;
    while i < v.len()
        invariant
            i <= v@.len(),
            pairs_view(rest@) == pairs_view(v@.subrange(0, i as int)),
        decreases v.len() - i,
    {
        let ghost before = rest@;
        rest.push((owned(v[i].0.as_str()), owned(v[i].1.as_str())));
        assert(pairs_view(rest@) =~= pairs_view(before).push((v@[i as int].0@, v@[i as int].1@)));
        assert(pairs_view(v@.subrange(0, i + 1)) =~= pairs_view(v@.subrange(0, i as int)).push(
            (v@[i as int].0@, v@[i as int].1@),
        ));
        i = i + 1;
    }
    assert(v@.subrange(0, i as int) =~= v@);
    let ghost total = pairs_view(v@).to_multiset();
    let mut r: Vec<(String, String)> = Vec::new();
    while rest.len() > 0
        invariant
            pairs_view(r@).to_multiset().add(pairs_view(rest@).to_multiset()) == total,
            sorted_by_name(pairs_view(r@)),
            forall|a: int, b: int| 0 <= a < r@.len() && 0 <= b < rest@.len() ==> !text_lt(#[trigger] rest@[b].0@, #[trigger] r@[a].0@),
        decreases rest@.len(),
    {
        let m = index_of_least_name(&rest);
        let ghost before_r = r@;
        let ghost before_rest = rest@;
        let x = rest.remove(m);
        proof {
            assert(pairs_view(rest@) =~= pairs_view(before_rest).remove(m as int));
            assert(pairs_view(before_rest)[m as int] == (x.0@, x.1@));
        }
        r.push(x);
        proof {
            assert(pairs_view(r@) =~= pairs_view(before_r).push((x.0@, x.1@)));
            assert(pairs_view(r@).to_multiset().add(pairs_view(rest@).to_multiset()) =~= total);
            assert forall|a: int, b: int| 0 <= a < r@.len() && 0 <= b < rest@.len() implies !text_lt(
                #[trigger] rest@[b].0@,
                #[trigger] r@[a].0@,
            ) by {
                if b < m {
                    assert(rest@[b] == before_rest[b]);
                } else {
                    assert(rest@[b] == before_rest[b + 1]);
                }
                if a < before_r.len() {
                    assert(r@[a] == before_r[a]);
                }
            }
            assert forall|a: int, b: int| 0 <= a < b < pairs_view(r@).len() implies !text_lt(
                #[trigger] pairs_view(r@)[b].0,
                #[trigger] pairs_view(r@)[a].0,
            ) by {
                if b < before_r.len() {
                    assert(pairs_view(r@)[a] == pairs_view(before_r)[a]);
                    assert(pairs_view(r@)[b] == pairs_view(before_r)[b]);
                } else {
                    assert(r@[a] == before_r[a]);
                    assert(before_rest[m as int] == x);
                }
            }
        }
    }
    assert(pairs_view(rest@).to_multiset() =~= vstd::multiset::Multiset::empty());
    assert(pairs_view(r@).to_multiset() =~= total);
    r
}

/// Whether name/value pairs with the same name are the same pair.
pub open spec fn names_unique(s: Seq<(Seq<char>, Seq<char>)>) -> bool {
    forall|i: int, j: int| 0 <= i < s.len() && 0 <= j < s.len() && #[trigger] s[i].0 == #[trigger] s[j].0 ==> s[i] == s[j]
}

/// Name/value pairs sorted by name are determined by what they hold when
/// pairs with the same name are the same pair: two such orderings of the
/// same pairs are equal.
pub proof fn lemma_sorted_by_name_unique(s1: Seq<(Seq<char>, Seq<char>)>, s2: Seq<(Seq<char>, Seq<char>)>)
    requires
        s1.to_multiset() == s2.to_multiset(),
        sorted_by_name(s1),
        sorted_by_name(s2),
        names_unique(s1),
    ensures
        s1 == s2,
    decreases s1.len(),
{
    broadcast use vstd::seq_lib::group_to_multiset_ensures;
    assert(s1.len() == s1.to_multiset().len());
    assert(s2.len() == s2.to_multiset().len());
    if s1.len() == 0 {
        assert(s1 =~= s2);
    } else {
        let a = s1[0];
        let b = s2[0];
        assert(s2.to_multiset().count(a) > 0) by {
            assert(s1.contains(a)) by { assert(s1[0] == a); }
        }
        assert(s1.to_multiset().count(b) > 0) by {
            assert(s2.contains(b)) by { assert(s2[0] == b); }
        }
        let j = choose|j: int| 0 <= j < s1.len() && s1[j] == b;
        let k = choose|k: int| 0 <= k < s2.len() && s2[k] == a;
        assert(!text_lt(s1[j].0, s1[0].0)) by {
            if j > 0 {
                assert(!text_lt(s1[j].0, s1[0].0));
            } else {
                lemma_text_lt_irreflexive(s1[0].0);
            }
        }
        assert(!text_lt(s2[k].0, s2[0].0)) by {
            if k > 0 {
                assert(!text_lt(s2[k].0, s2[0].0));
            } else {
                lemma_text_lt_irreflexive(s2[0].0);
            }
        }
        lemma_text_lt_total(a.0, b.0);
        assert(a.0 == b.0);
        assert(s1[j] == s1[0]);
        assert(a == b);
        let r1 = s1.remove(0);
        let r2 = s2.remove(0);
        assert(r1.to_multiset() == s1.to_multiset().remove(a));
        assert(r2.to_multiset() == s2.to_multiset().remove(b));
        assert(r1 =~= s1.drop_first());
        assert(r2 =~= s2.drop_first());
        assert(sorted_by_name(r1)) by {
            assert forall|x: int, y: int| 0 <= x < y < r1.len() implies !text_lt(#[trigger] r1[y].0, #[trigger] r1[x].0) by {
                assert(r1[x] == s1[x + 1] && r1[y] == s1[y + 1]);
            }
        }
        assert(sorted_by_name(r2)) by {
            assert forall|x: int, y: int| 0 <= x < y < r2.len() implies !text_lt(#[trigger] r2[y].0, #[trigger] r2[x].0) by {
                assert(r2[x] == s2[x + 1] && r2[y] == s2[y + 1]);
            }
        }
        assert(names_unique(r1)) by {
            assert forall|x: int, y: int| 0 <= x < r1.len() && 0 <= y < r1.len() && #[trigger] r1[x].0 == #[trigger] r1[y].0 implies r1[x] == r1[y] by {
                assert(r1[x] == s1[x + 1] && r1[y] == s1[y + 1]);
            }
        }
        lemma_sorted_by_name_unique(r1, r2);
        assert(s1 =~= s2) by {
            assert forall|x: int| 0 <= x < s1.len() implies s1[x] == s2[x] by {
                if x > 0 {
                    assert(s1[x] == r1[x - 1] && s2[x] == r2[x - 1]);
                }
            }
        }
    }
}

} // verus!
