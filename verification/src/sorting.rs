use vstd::prelude::*;

verus! {

broadcast use vstd::seq_lib::group_seq_properties;

/// Items that are ordered by an integer key.
pub trait SortKey {
    /// The key by which the item is ordered.
    spec fn sort_key(&self) -> int;

    /// The key, computed.
    fn key(&self) -> (k: i64)
        ensures
            k as int == self.sort_key(),
    ;
}

/// The keys of `s` never decrease.
pub open spec fn is_sorted_by_key<T: SortKey>(s: Seq<T>) -> bool {
    forall|i: int, j: int| 0 <= i <= j < s.len() ==> s[i].sort_key() <= s[j].sort_key()
}

/// The items of `s` whose key is `k`, in their order in `s`.
pub open spec fn with_key<T: SortKey>(s: Seq<T>, k: int) -> Seq<T> {
    s.filter(|x: T| x.sort_key() == k)
}

/// Where an item with key `k` goes in a sorted sequence: after every item whose key is at most
/// `k`.
pub open spec fn insert_pos<T: SortKey>(s: Seq<T>, k: int) -> nat
    decreases s.len(),
{
    if s.len() == 0 {
        0
    } else if s[0].sort_key() <= k {
        1 + insert_pos(s.drop_first(), k)
    } else {
        0
    }
}

/// `s` with `x` inserted after every item whose key is at most `x`'s.
pub open spec fn insert_sorted<T: SortKey>(s: Seq<T>, x: T) -> Seq<T> {
    s.insert(insert_pos(s, x.sort_key()) as int, x)
}

/// `s` ordered by key, items with equal keys keeping their order: each item in turn is
/// inserted into the ordered items before it.
pub open spec fn stable_sorted<T: SortKey>(s: Seq<T>) -> Seq<T>
    decreases s.len(),
{
    if s.len() == 0 {
        s
    } else {
        insert_sorted(stable_sorted(s.drop_last()), s.last())
    }
}

/// In a sorted sequence, the insertion point of `k` splits the items with key at most `k`
/// from those with a larger key.
proof fn lemma_insert_pos<T: SortKey>(s: Seq<T>, k: int)
    requires
        is_sorted_by_key(s),
    ensures
        insert_pos(s, k) <= s.len(),
        forall|i: int| 0 <= i < insert_pos(s, k) ==> s[i].sort_key() <= k,
        forall|i: int| insert_pos(s, k) <= i < s.len() ==> s[i].sort_key() > k,
    decreases s.len(),
{
    if s.len() > 0 {
        if s[0].sort_key() <= k {
            let t = s.drop_first();
            assert(is_sorted_by_key(t)) by {
                assert forall|i: int, j: int| 0 <= i <= j < t.len() implies t[i].sort_key()
                    <= t[j].sort_key() by {
                    assert(t[i] == s[i + 1] && t[j] == s[j + 1]);
                }
            }
            lemma_insert_pos(t, k);
            assert forall|i: int| 0 <= i < insert_pos(s, k) implies s[i].sort_key() <= k by {
                if i > 0 {
                    assert(s[i] == t[i - 1]);
                }
            }
            assert forall|i: int| insert_pos(s, k) <= i < s.len() implies s[i].sort_key() > k by {
                assert(s[i] == t[i - 1]);
            }
        } else {
            assert forall|i: int| 0 <= i < s.len() implies s[i].sort_key() > k by {
                assert(s[0].sort_key() <= s[i].sort_key());
            }
        }
    }
}

/// Inserting into a sorted sequence keeps it sorted, and adds exactly the item.
proof fn lemma_insert_sorted<T: SortKey>(s: Seq<T>, x: T)
    requires
        is_sorted_by_key(s),
    ensures
        is_sorted_by_key(insert_sorted(s, x)),
        insert_sorted(s, x).to_multiset() == s.to_multiset().insert(x),
        forall|k: int| #[trigger] with_key(insert_sorted(s, x), k) == (if x.sort_key() == k {
            with_key(s, k).push(x)
        } else {
            with_key(s, k)
        }),
{
    let k = x.sort_key();
    lemma_insert_pos(s, k);
    let p = insert_pos(s, k) as int;
    let r = insert_sorted(s, x);
    assert(r.len() == s.len() + 1);
    assert forall|i: int, j: int| 0 <= i <= j < r.len() implies r[i].sort_key()
        <= r[j].sort_key() by {
        if i < p && j < p {
        } else if i < p && j == p {
        } else if i < p && j > p {
            assert(r[j] == s[j - 1]);
        } else if i == p && j > p {
            assert(r[j] == s[j - 1]);
        } else if i > p {
            assert(r[i] == s[i - 1] && r[j] == s[j - 1]);
        }
    }
    vstd::seq_lib::to_multiset_insert(s, p, x);
    let pre = s.subrange(0, p);
    let post = s.subrange(p, s.len() as int);
    assert(s =~= pre + post);
    assert(r =~= pre + seq![x] + post);
    assert forall|v: int| #[trigger] with_key(r, v) == (if k == v {
        with_key(s, v).push(x)
    } else {
        with_key(s, v)
    }) by {
        let f = |y: T| y.sort_key() == v;
        Seq::filter_distributes_over_add(pre + seq![x], post, f);
        Seq::filter_distributes_over_add(pre, seq![x], f);
        Seq::filter_distributes_over_add(pre, post, f);
        assert(seq![x].filter(f) == (if k == v { seq![x] } else { Seq::<T>::empty() })) by {
            reveal(Seq::filter);
            assert(seq![x].drop_last() =~= Seq::<T>::empty());
        }
        if k == v {
            assert(post.filter(f) =~= Seq::<T>::empty()) by {
                if post.filter(f).len() > 0 {
                    post.lemma_filter_contains_rev(f, post.filter(f)[0]);
                    let e = post.filter(f)[0];
                    post.filter_lemma(f);
                    assert(f(e));
                    let idx = choose|idx: int| 0 <= idx < post.len() && post[idx] == e;
                    assert(post[idx] == s[p + idx]);
                }
            }
            assert(with_key(r, v) =~= with_key(s, v).push(x));
        } else {
            assert(with_key(r, v) =~= with_key(s, v));
        }
    }
}

/// Sorting is stable: the result lists the items in key order, holds exactly the items of the
/// input (so as many of them), and lists items of equal key in their input order.
pub proof fn lemma_stable_sorted<T: SortKey>(s: Seq<T>)
    ensures
        is_sorted_by_key(stable_sorted(s)),
        stable_sorted(s).to_multiset() == s.to_multiset(),
        stable_sorted(s).len() == s.len(),
        forall|k: int| #[trigger] with_key(stable_sorted(s), k) == with_key(s, k),
    decreases s.len(),
{
    if s.len() == 0 {
    } else {
        let t = s.drop_last();
        let x = s.last();
        lemma_stable_sorted(t);
        lemma_insert_sorted(stable_sorted(t), x);
        assert(s =~= t.push(x));
        vstd::seq_lib::to_multiset_build(t, x);
        vstd::seq_lib::to_multiset_len(stable_sorted(s));
        vstd::seq_lib::to_multiset_len(s);
        assert forall|k: int| #[trigger] with_key(stable_sorted(s), k) == with_key(s, k) by {
            t.lemma_filter_push(x, |y: T| y.sort_key() == k);
            assert(with_key(stable_sorted(s), k) == with_key(stable_sorted(t), k).push(x)
                || with_key(stable_sorted(s), k) == with_key(stable_sorted(t), k));
        }
    }
}

/// Orders `v` by key; items with equal keys keep their order.
pub fn stable_sort<T: SortKey>(v: Vec<T>) -> (r: Vec<T>)
    ensures
        r@ == stable_sorted(v@),
{
    let ghost orig = v@;
    let mut rest = v;
    let mut out: Vec<T> = Vec::new();
    let n = rest.len();
    let mut i: usize = 0;
    assert(orig.take(0) =~= Seq::<T>::empty());
    while i < n
        invariant
            n == orig.len(),
            i <= n,
            rest@ =~= orig.skip(i as int),
            out@ == stable_sorted(orig.take(i as int)),
        decreases n - i,
    {
        proof {
            lemma_stable_sorted(orig.take(i as int));
        }
        let x = rest.remove(0);
        let xk = x.key();
        let mut k: usize = 0;
        while k < out.len() && out[k].key() <= xk
            invariant
                k <= out.len(),
                forall|j: int| 0 <= j < k ==> out@[j].sort_key() <= xk,
            decreases out.len() - k,
        {
            k = k + 1;
        }
        proof {
            lemma_insert_pos(out@, xk as int);
            let p = insert_pos(out@, xk as int) as int;
            if p < k {
                assert(out@[p].sort_key() <= xk);
            }
            if k < p {
                assert(out@[k as int].sort_key() <= xk);
            }
            assert(p == k);
            assert(orig.take(i + 1).drop_last() =~= orig.take(i as int));
            assert(orig.take(i + 1).last() == x);
        }
        out.insert(k, x);
        i = i + 1;
    }
    assert(orig.take(n as int) =~= orig);
    out
}

} // verus!
