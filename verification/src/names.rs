//! Names in order: the lexicographic order of their characters, and the sorted
//! listing of a set of names, which is the same whatever order the names came in.
use vstd::prelude::*;
use vstd::string::StrSliceExecFns;
use crate::scope::names_of;

verus! {

/// `a` comes before `b` in the lexicographic order of characters (by code point).
pub open spec fn chars_lt(a: Seq<char>, b: Seq<char>) -> bool
    decreases a.len(),
{
    if b.len() == 0 {
        false
    } else if a.len() == 0 {
        true
    } else if a[0] != b[0] {
        a[0] < b[0]
    } else {
        chars_lt(a.drop_first(), b.drop_first())
    }
}

/// Each name comes before every later one.
pub open spec fn strictly_sorted(s: Seq<Seq<char>>) -> bool {
    forall|i: int, j: int| 0 <= i < j < s.len() ==> chars_lt(#[trigger] s[i], #[trigger] s[j])
}

/// `s` lists the names of `names` in order, each once.
pub open spec fn is_sorted_listing(s: Seq<Seq<char>>, names: Set<Seq<char>>) -> bool {
    strictly_sorted(s) && s.to_set() == names
}

/// The names of a set in order: there is at most one such listing
/// (`lemma_sorted_listing_unique`).
pub open spec fn sorted_listing(names: Set<Seq<char>>) -> Seq<Seq<char>> {
    choose|s: Seq<Seq<char>>| is_sorted_listing(s, names)
}

/// No name comes before itself.
pub proof fn lemma_chars_lt_irreflexive(a: Seq<char>)
    ensures
        !chars_lt(a, a),
    decreases a.len(),
{
    if a.len() > 0 {
        lemma_chars_lt_irreflexive(a.drop_first());
    }
}

/// The order is transitive.
pub proof fn lemma_chars_lt_transitive(a: Seq<char>, b: Seq<char>, c: Seq<char>)
    requires
        chars_lt(a, b),
        chars_lt(b, c),
    ensures
        chars_lt(a, c),
    decreases a.len(),
{
    if a.len() > 0 && b.len() > 0 && c.len() > 0 && a[0] == b[0] && b[0] == c[0] {
        lemma_chars_lt_transitive(a.drop_first(), b.drop_first(), c.drop_first());
    }
}

/// Of two different names, one comes before the other.
pub proof fn lemma_chars_lt_total(a: Seq<char>, b: Seq<char>)
    requires
        a != b,
    ensures
        chars_lt(a, b) || chars_lt(b, a),
    decreases a.len(),
{
    if a.len() > 0 && b.len() > 0 {
        if a[0] == b[0] {
            if a.drop_first() == b.drop_first() {
                assert(a =~= seq![a[0]] + a.drop_first());
                assert(b =~= seq![b[0]] + b.drop_first());
            }
            lemma_chars_lt_total(a.drop_first(), b.drop_first());
        }
    } else if a.len() == 0 && b.len() == 0 {
        assert(a =~= b);
    }
}

/// A set of names has at most one sorted listing.
pub proof fn lemma_sorted_listing_unique(s1: Seq<Seq<char>>, s2: Seq<Seq<char>>)
    requires
        strictly_sorted(s1),
        strictly_sorted(s2),
        s1.to_set() == s2.to_set(),
    ensures
        s1 == s2,
    decreases s1.len(),
{
    if s1.len() == 0 {
        if s2.len() > 0 {
            assert(s2.to_set().contains(s2[0]));
        }
        assert(s1 =~= s2);
    } else {
        assert(s1.to_set().contains(s1[0]));
        assert(s2.len() > 0);
        assert(s2.to_set().contains(s2[0]));
        let j = choose|j: int| 0 <= j < s2.len() && s2[j] == s1[0];
        let i = choose|i: int| 0 <= i < s1.len() && s1[i] == s2[0];
        if j > 0 {
            assert(chars_lt(s2[0], s2[j]));
            if i == 0 {
                lemma_chars_lt_irreflexive(s1[0]);
            } else {
                assert(chars_lt(s1[0], s1[i]));
                lemma_chars_lt_transitive(s1[0], s2[0], s1[0]);
                lemma_chars_lt_irreflexive(s1[0]);
            }
        }
        let t1 = s1.drop_first();
        let t2 = s2.drop_first();
        assert forall|e: Seq<char>| t1.to_set().contains(e) <==> t2.to_set().contains(e) by {
            if t1.to_set().contains(e) {
                let k = choose|k: int| 0 <= k < t1.len() && t1[k] == e;
                assert(s1[k + 1] == e);
                assert(s2.to_set().contains(e));
                let m = choose|m: int| 0 <= m < s2.len() && s2[m] == e;
                if m == 0 {
                    assert(chars_lt(s1[0], s1[k + 1]));
                    lemma_chars_lt_irreflexive(e);
                }
                assert(t2[m - 1] == e);
            }
            if t2.to_set().contains(e) {
                let k = choose|k: int| 0 <= k < t2.len() && t2[k] == e;
                assert(s2[k + 1] == e);
                assert(s1.to_set().contains(e));
                let m = choose|m: int| 0 <= m < s1.len() && s1[m] == e;
                if m == 0 {
                    assert(chars_lt(s2[0], s2[k + 1]));
                    lemma_chars_lt_irreflexive(e);
                }
                assert(t1[m - 1] == e);
            }
        }
        assert(t1.to_set() =~= t2.to_set());
        assert forall|a: int, b: int| 0 <= a < b < t1.len() implies chars_lt(
            #[trigger] t1[a],
            #[trigger] t1[b],
        ) by {
            assert(t1[a] == s1[a + 1] && t1[b] == s1[b + 1]);
        }
        assert forall|a: int, b: int| 0 <= a < b < t2.len() implies chars_lt(
            #[trigger] t2[a],
            #[trigger] t2[b],
        ) by {
            assert(t2[a] == s2[a + 1] && t2[b] == s2[b + 1]);
        }
        lemma_sorted_listing_unique(t1, t2);
        assert(s2[0] == s1[0]);
        assert forall|k: int| 0 < k < s1.len() implies s1[k] == s2[k] by {
            assert(s1[k] == t1[k - 1] && s2[k] == t2[k - 1]);
        }
        assert(s1 =~= s2);
    }
}

/// A sorted listing of a set is the set's `sorted_listing`.
pub proof fn lemma_is_the_sorted_listing(s: Seq<Seq<char>>, names: Set<Seq<char>>)
    requires
        is_sorted_listing(s, names),
    ensures
        s == sorted_listing(names),
{
    let t = sorted_listing(names);
    assert(is_sorted_listing(t, names));
    lemma_sorted_listing_unique(s, t);
}

/// Whether `a` comes before `b`.
pub fn name_lt(a: &str, b: &str) -> (res: bool)
    ensures
        res == chars_lt(a@, b@),
{
    let la = a.unicode_len();
    let lb = b.unicode_len();
    let mut i: usize = 0;
    assert(a@.skip(0) =~= a@);
    assert(b@.skip(0) =~= b@);
    while i < la && i < lb
        invariant
            la == a@.len(),
            lb == b@.len(),
            i <= la,
            i <= lb,
            chars_lt(a@, b@) == chars_lt(a@.skip(i as int), b@.skip(i as int)),
        decreases la - i,
    {
        let ca = a.get_char(i);
        let cb = b.get_char(i);
        assert(a@.skip(i as int)[0] == ca);
        assert(b@.skip(i as int)[0] == cb);
        if ca != cb {
            return ca < cb;
        }
        assert(a@.skip(i as int).drop_first() =~= a@.skip(i + 1));
        assert(b@.skip(i as int).drop_first() =~= b@.skip(i + 1));
        i = i + 1;
    }
    i < lb
}

/// The names in order. The names must be different.
pub fn sort_names(v: Vec<String>) -> (res: Vec<String>)
    requires
        names_of(v@).no_duplicates(),
    ensures
        is_sorted_listing(names_of(res@), names_of(v@).to_set()),
{
    let ghost nv = names_of(v@);
    let mut res: Vec<String> = Vec::new();
    let n = v.len();
    let mut k: usize = 0;
    while k < n
        invariant
            n == v@.len(),
            nv == names_of(v@),
            nv.no_duplicates(),
            k <= n,
            strictly_sorted(names_of(res@)),
            names_of(res@).to_set() == nv.take(k as int).to_set(),
        decreases n - k,
    {
        let x = v[k].clone();
        let ghost old_res = names_of(res@);
        assert(!old_res.to_set().contains(x@)) by {
            if old_res.to_set().contains(x@) {
                assert(nv.take(k as int).to_set().contains(x@));
                let m = choose|m: int| 0 <= m < k && nv.take(k as int)[m] == x@;
                assert(nv[m] == nv[k as int]);
            }
        }
        let mut p: usize = 0;
        while p < res.len() && !name_lt(x.as_str(), res[p].as_str())
            invariant
                p <= res@.len(),
                old_res == names_of(res@),
                !old_res.to_set().contains(x@),
                forall|j: int| 0 <= j < p ==> chars_lt(#[trigger] old_res[j], x@),
            decreases res@.len() - p,
        {
            proof {
                assert(old_res[p as int] == res@[p as int]@);
                assert(old_res.to_set().contains(old_res[p as int]));
                lemma_chars_lt_total(x@, old_res[p as int]);
            }
            p = p + 1;
        }
        proof {
            if p < res@.len() {
                assert(old_res[p as int] == res@[p as int]@);
                assert forall|q: int| p <= q < old_res.len() implies chars_lt(x@, #[trigger] old_res[q]) by {
                    if q > p {
                        assert(chars_lt(old_res[p as int], old_res[q]));
                        lemma_chars_lt_transitive(x@, old_res[p as int], old_res[q]);
                    }
                }
            }
        }
        res.insert(p, x);
        proof {
            let nr = names_of(res@);
            assert(nr =~= old_res.insert(p as int, x@));
            assert forall|i: int, j: int| 0 <= i < j < nr.len() implies chars_lt(
                #[trigger] nr[i],
                #[trigger] nr[j],
            ) by {
                if j < p {
                } else if i < p && j == p {
                } else if i < p {
                    assert(nr[j] == old_res[j - 1]);
                    assert(chars_lt(x@, old_res[j - 1]));
                    lemma_chars_lt_transitive(nr[i], x@, nr[j]);
                } else if i == p {
                    assert(chars_lt(x@, old_res[j - 1]));
                } else {
                    assert(nr[i] == old_res[i - 1] && nr[j] == old_res[j - 1]);
                }
            }
            assert(nv.take(k + 1) =~= nv.take(k as int).push(nv[k as int]));
            nv.take(k as int).lemma_push_to_set_commute(nv[k as int]);
            assert(nr.to_set() =~= old_res.to_set().insert(x@)) by {
                assert forall|e: Seq<char>| nr.to_set().contains(e) implies old_res.to_set().insert(
                    x@,
                ).contains(e) by {
                    let m = choose|m: int| 0 <= m < nr.len() && nr[m] == e;
                    if m < p {
                        assert(old_res[m] == e);
                    } else if m > p {
                        assert(old_res[m - 1] == e);
                    }
                }
                assert forall|e: Seq<char>| old_res.to_set().insert(x@).contains(e) implies nr.to_set().contains(e) by {
                    if e == x@ {
                        assert(nr[p as int] == e);
                    } else {
                        let m = choose|m: int| 0 <= m < old_res.len() && old_res[m] == e;
                        if m < p {
                            assert(nr[m] == e);
                        } else {
                            assert(nr[m + 1] == e);
                        }
                    }
                }
            }
        }
        k = k + 1;
    }
    proof {
        assert(nv.take(n as int) =~= nv);
    }
    res
}

} // verus!
