//! Keeping the registry entries whose probe was accepted.
use vstd::prelude::*;

verus! {

/// The entries of `s` whose flag in `a` is set, in their original order.
pub open spec fn kept<T>(s: Seq<T>, a: Seq<bool>) -> Seq<T>
    decreases s.len(),
{
    if s.len() == 0 {
        Seq::empty()
    } else {
        let rest = kept(s.drop_last(), a.subrange(0, s.len() - 1));
        if a[s.len() - 1] {
            rest.push(s.last())
        } else {
            rest
        }
    }
}

proof fn lemma_kept_step<T>(s: Seq<T>, a: Seq<bool>, k: int)
    requires
        s.len() == a.len(),
        0 <= k < s.len(),
    ensures
        kept(s.subrange(0, k + 1), a.subrange(0, k + 1)) == if a[k] {
            kept(s.subrange(0, k), a.subrange(0, k)).push(s[k])
        } else {
            kept(s.subrange(0, k), a.subrange(0, k))
        },
{
    let s1 = s.subrange(0, k + 1);
    let a1 = a.subrange(0, k + 1);
    assert(s1.drop_last() =~= s.subrange(0, k));
    assert(a1.subrange(0, k) =~= a.subrange(0, k));
}

/// Every entry that a sweep keeps was in the registry before it.
pub proof fn lemma_kept_from<T>(s: Seq<T>, a: Seq<bool>, x: T)
    requires
        s.len() == a.len(),
        kept(s, a).contains(x),
    ensures
        s.contains(x),
    decreases s.len(),
{
    let rest = kept(s.drop_last(), a.subrange(0, s.len() - 1));
    if a[s.len() - 1] && x == s.last() {
        assert(s[s.len() - 1] == x);
    } else {
        if !a[s.len() - 1] {
            assert(rest.contains(x));
        } else {
            let k = choose|k: int| 0 <= k < kept(s, a).len() && kept(s, a)[k] == x;
            assert(k < rest.len());
            assert(rest[k] == x);
        }
        lemma_kept_from(s.drop_last(), a.subrange(0, s.len() - 1), x);
        let k = choose|k: int| 0 <= k < s.drop_last().len() && s.drop_last()[k] == x;
        assert(s[k] == x);
    }
}

/// A subscriber that accepted the probe is still registered after the sweep.
pub proof fn lemma_sweep_keeps_accepted<T>(s: Seq<T>, a: Seq<bool>, i: int)
    requires
        s.len() == a.len(),
        0 <= i < s.len(),
        a[i],
    ensures
        kept(s, a).contains(s[i]),
    decreases s.len(),
{
    let n = s.len() - 1;
    let rest = kept(s.drop_last(), a.subrange(0, n));
    if i == n {
        assert(kept(s, a) == rest.push(s[i]));
        assert(kept(s, a)[rest.len() as int] == s[i]);
    } else {
        lemma_sweep_keeps_accepted(s.drop_last(), a.subrange(0, n), i);
        assert(s.drop_last()[i] == s[i]);
        let k = choose|k: int| 0 <= k < rest.len() && rest[k] == s[i];
        if a[n] {
            assert(kept(s, a)[k] == s[i]);
        }
    }
}

/// A subscriber that rejected the probe is absent from the registry after
/// the sweep, so no later broadcast reaches it.
pub proof fn lemma_sweep_evicts_rejected<T>(s: Seq<T>, a: Seq<bool>, i: int)
    requires
        s.len() == a.len(),
        0 <= i < s.len(),
        !a[i],
        forall|j: int| 0 <= j < s.len() && j != i ==> s[j] != s[i],
    ensures
        !kept(s, a).contains(s[i]),
    decreases s.len(),
{
    let n = s.len() - 1;
    let rest = kept(s.drop_last(), a.subrange(0, n));
    if i == n {
        if rest.contains(s[i]) {
            lemma_kept_from(s.drop_last(), a.subrange(0, n), s[i]);
            let k = choose|k: int| 0 <= k < s.drop_last().len() && s.drop_last()[k] == s[i];
            assert(s[k] == s[i]);
        }
    } else {
        assert forall|j: int| 0 <= j < s.drop_last().len() && j != i implies s.drop_last()[j] != s.drop_last()[i] by {
            assert(s.drop_last()[j] == s[j]);
        }
        lemma_sweep_evicts_rejected(s.drop_last(), a.subrange(0, n), i);
        if a[n] {
            if kept(s, a).contains(s[i]) {
                let k = choose|k: int| 0 <= k < kept(s, a).len() && kept(s, a)[k] == s[i];
                if k < rest.len() {
                    assert(rest[k] == s[i]);
                } else {
                    assert(kept(s, a)[k] == s[n]);
                }
            }
        }
    }
}

/// When every subscriber accepts the probe, the sweep leaves the registry as
/// it was, order included.
pub proof fn lemma_sweep_all_accepted<T>(s: Seq<T>, a: Seq<bool>)
    requires
        s.len() == a.len(),
        forall|i: int| 0 <= i < a.len() ==> a[i],
    ensures
        kept(s, a) == s,
    decreases s.len(),
{
    if s.len() > 0 {
        let n = s.len() - 1;
        lemma_sweep_all_accepted(s.drop_last(), a.subrange(0, n));
        assert(s.drop_last().push(s.last()) =~= s);
    }
}

/// Removes, in place, every entry of `clients` whose flag in `accepted` is
/// unset; the others stay in their original relative order.
pub fn retain_accepted<T>(clients: &mut Vec<T>, accepted: &Vec<bool>)
    requires
        old(clients)@.len() == accepted@.len(),
    ensures
        final(clients)@ == kept(old(clients)@, accepted@),
{
    let ghost orig = clients@;
    let mut j: usize = 0;
    let mut k: usize = 0;
    assert(orig.subrange(0, 0) =~= Seq::<T>::empty());
    assert(clients@ =~= kept(orig.subrange(0, 0), accepted@.subrange(0, 0)) + orig.subrange(0, orig.len() as int));
    while k < accepted.len()
        invariant
            orig.len() == accepted@.len(),
            0 <= k <= accepted@.len(),
            j <= k,
            j == kept(orig.subrange(0, k as int), accepted@.subrange(0, k as int)).len(),
            clients@ == kept(orig.subrange(0, k as int), accepted@.subrange(0, k as int)) + orig.subrange(k as int, orig.len() as int),
        decreases accepted@.len() - k,
    {
        proof {
            lemma_kept_step(orig, accepted@, k as int);
        }
        let ghost pre = kept(orig.subrange(0, k as int), accepted@.subrange(0, k as int));
        assert(clients@[j as int] == orig[k as int]);
        if accepted[k] {
            j = j + 1;
            assert(clients@ =~= pre.push(orig[k as int]) + orig.subrange(k + 1, orig.len() as int));
        } else {
            clients.remove(j);
            assert(clients@ =~= pre + orig.subrange(k + 1, orig.len() as int));
        }
        k = k + 1;
    }
    assert(orig.subrange(0, orig.len() as int) =~= orig);
    assert(accepted@.subrange(0, orig.len() as int) =~= accepted@);
    assert(clients@ =~= kept(orig, accepted@));
}

} // verus!
