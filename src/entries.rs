//! Association lists of `(key, amount)` pairs: the sparse maps of the ledger,
//! where a key that is absent stands for an amount of zero.
use vstd::prelude::*;

verus! {

/// No key occurs twice.
pub open spec fn keys_unique<K>(s: Seq<(K, u128)>) -> bool {
    forall|i: int, j: int| 0 <= i < j < s.len() ==> s[i].0 != s[j].0
}

/// The amount stored under `k`, or zero where `k` is absent.
pub open spec fn lookup<K>(s: Seq<(K, u128)>, k: K) -> nat
    decreases s.len(),
{
    if s.len() == 0 {
        0
    } else if s.last().0 == k {
        s.last().1 as nat
    } else {
        lookup(s.drop_last(), k)
    }
}

/// The sum of all amounts stored.
pub open spec fn total<K>(s: Seq<(K, u128)>) -> int
    decreases s.len(),
{
    if s.len() == 0 {
        0
    } else {
        total(s.drop_last()) + s.last().1
    }
}

/// With unique keys, the lookup of a stored key gives its entry's amount.
pub proof fn lemma_lookup_at<K>(s: Seq<(K, u128)>, i: int)
    requires
        keys_unique(s),
        0 <= i < s.len(),
    ensures
        lookup(s, s[i].0) == s[i].1,
    decreases s.len(),
{
    if i < s.len() - 1 {
        lemma_lookup_at(s.drop_last(), i);
    }
}

/// A key without an entry looks up as zero.
pub proof fn lemma_lookup_absent<K>(s: Seq<(K, u128)>, k: K)
    requires
        forall|i: int| 0 <= i < s.len() ==> s[i].0 != k,
    ensures
        lookup(s, k) == 0,
    decreases s.len(),
{
    if s.len() > 0 {
        lemma_lookup_absent(s.drop_last(), k);
    }
}

/// Overwriting the amount at an index changes the lookup of that key alone.
pub proof fn lemma_lookup_update<K>(s: Seq<(K, u128)>, i: int, v: u128)
    requires
        keys_unique(s),
        0 <= i < s.len(),
    ensures
        keys_unique(s.update(i, (s[i].0, v))),
        forall|k: K|
            #[trigger] lookup(s.update(i, (s[i].0, v)), k) == if k == s[i].0 {
                v as nat
            } else {
                lookup(s, k)
            },
{
    let t = s.update(i, (s[i].0, v));
    assert(keys_unique(t));
    assert forall|k: K| #[trigger]
        lookup(t, k) == if k == s[i].0 {
            v as nat
        } else {
            lookup(s, k)
        } by {
        if k == s[i].0 {
            lemma_lookup_at(t, i);
        } else if exists|j: int| 0 <= j < s.len() && s[j].0 == k {
            let j = choose|j: int| 0 <= j < s.len() && s[j].0 == k;
            lemma_lookup_at(t, j);
            lemma_lookup_at(s, j);
        } else {
            lemma_lookup_absent(t, k);
            lemma_lookup_absent(s, k);
        }
    }
}

/// Appending an entry for a new key gives that key its amount and keeps the rest.
pub proof fn lemma_lookup_push<K>(s: Seq<(K, u128)>, k: K, v: u128)
    requires
        keys_unique(s),
        forall|i: int| 0 <= i < s.len() ==> s[i].0 != k,
    ensures
        keys_unique(s.push((k, v))),
        total(s.push((k, v))) == total(s) + v,
        forall|k2: K|
            #[trigger] lookup(s.push((k, v)), k2) == if k2 == k {
                v as nat
            } else {
                lookup(s, k2)
            },
{
    let t = s.push((k, v));
    assert(t.drop_last() =~= s);
}

/// Replacing one entry changes the total by the difference of the amounts.
pub proof fn lemma_total_update<K>(s: Seq<(K, u128)>, i: int, e: (K, u128))
    requires
        0 <= i < s.len(),
    ensures
        total(s.update(i, e)) == total(s) - s[i].1 + e.1,
    decreases s.len(),
{
    let t = s.update(i, e);
    if i < s.len() - 1 {
        assert(t.drop_last() =~= s.drop_last().update(i, e));
        lemma_total_update(s.drop_last(), i, e);
    } else {
        assert(t.drop_last() =~= s.drop_last());
    }
}

/// Amounts are unsigned, so their total is never negative.
pub proof fn lemma_total_nonneg<K>(s: Seq<(K, u128)>)
    ensures
        total(s) >= 0,
    decreases s.len(),
{
    if s.len() > 0 {
        lemma_total_nonneg(s.drop_last());
    }
}

/// Two distinct entries together never exceed the total.
pub proof fn lemma_total_two<K>(s: Seq<(K, u128)>, i: int, j: int)
    requires
        0 <= i < s.len(),
        0 <= j < s.len(),
        i != j,
    ensures
        s[i].1 + s[j].1 <= total(s),
    decreases s.len(),
{
    let n = s.len() - 1;
    if i < n && j < n {
        lemma_total_two(s.drop_last(), i, j);
    } else if i == n {
        lemma_total_one(s.drop_last(), j);
    } else {
        lemma_total_one(s.drop_last(), i);
    }
}

/// One entry never exceeds the total.
pub proof fn lemma_total_one<K>(s: Seq<(K, u128)>, i: int)
    requires
        0 <= i < s.len(),
    ensures
        s[i].1 <= total(s),
    decreases s.len(),
{
    let n = s.len() - 1;
    if i < n {
        lemma_total_one(s.drop_last(), i);
    } else {
        lemma_total_nonneg(s.drop_last());
    }
}

} // verus!
