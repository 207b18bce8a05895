use vstd::prelude::*;
use crate::step::ordered_versions;

verus! {

/// The versions that an upgrade from `recorded` runs, in the order it runs them:
/// every version of the set above the record.
pub open spec fn pending_versions(vs: Seq<u64>, recorded: u64) -> Seq<u64> {
    vs.filter(|v: u64| v > recorded)
}

/// The record left by an upgrade from `recorded` in which every step succeeds.
pub open spec fn upgraded_version(vs: Seq<u64>, recorded: u64) -> u64 {
    let p = pending_versions(vs, recorded);
    if p.len() == 0 {
        recorded
    } else {
        p.last()
    }
}

/// `k` splits `vs` into the versions at or below `recorded` and those above it.
pub open spec fn splits_at(vs: Seq<u64>, recorded: u64, k: int) -> bool {
    &&& 0 <= k <= vs.len()
    &&& forall|i: int| 0 <= i < k ==> #[trigger] vs[i] <= recorded
    &&& forall|i: int| k <= i < vs.len() ==> #[trigger] vs[i] > recorded
}

/// How many leading versions of an ordered set are at or below `recorded`.
pub open spec fn applied_prefix(vs: Seq<u64>, recorded: u64) -> int
    decreases vs.len(),
{
    if vs.len() == 0 {
        0
    } else if vs.last() <= recorded {
        vs.len() as int
    } else {
        applied_prefix(vs.drop_last(), recorded)
    }
}

/// In an ordered set the applied prefix is where the record splits it.
pub proof fn lemma_applied_prefix_splits(vs: Seq<u64>, recorded: u64)
    requires
        ordered_versions(vs),
    ensures
        splits_at(vs, recorded, applied_prefix(vs, recorded)),
    decreases vs.len(),
{
    if vs.len() > 0 {
        let n = vs.len() - 1;
        if vs.last() <= recorded {
            assert forall|i: int| 0 <= i < vs.len() implies #[trigger] vs[i] <= recorded by {
                if i < n {
                    assert(vs[i] < vs[n]);
                }
            }
        } else {
            let d = vs.drop_last();
            assert(ordered_versions(d)) by {
                assert forall|a: int, b: int| 0 <= a < b < d.len() implies #[trigger] d[a] < #[trigger] d[b] by {
                    assert(vs[a] < vs[b]);
                }
                assert forall|a: int| 0 <= a < d.len() implies #[trigger] d[a] > 0 by {
                    assert(vs[a] > 0);
                }
            }
            lemma_applied_prefix_splits(d, recorded);
            let k = applied_prefix(d, recorded);
            assert forall|i: int| 0 <= i < k implies #[trigger] vs[i] <= recorded by {
                assert(d[i] <= recorded);
            }
            assert forall|i: int| k <= i < vs.len() implies #[trigger] vs[i] > recorded by {
                if i < n {
                    assert(d[i] > recorded);
                }
            }
        }
    }
}

/// Where `k` splits the set at the record, the pending versions are exactly
/// the versions from `k` on.
pub proof fn lemma_pending_is_suffix(vs: Seq<u64>, recorded: u64, k: int)
    requires
        splits_at(vs, recorded, k),
    ensures
        pending_versions(vs, recorded) =~= vs.skip(k),
    decreases vs.len(),
{
    reveal(Seq::filter);
    if vs.len() > 0 {
        let d = vs.drop_last();
        let n = vs.len() - 1;
        let k2 = if k <= n { k } else { n };
        assert(splits_at(d, recorded, k2)) by {
            assert forall|i: int| 0 <= i < k2 implies #[trigger] d[i] <= recorded by {
                assert(vs[i] <= recorded);
            }
            assert forall|i: int| k2 <= i < d.len() implies #[trigger] d[i] > recorded by {
                assert(vs[i] > recorded);
            }
        }
        lemma_pending_is_suffix(d, recorded, k2);
        if k <= n {
            assert(vs[n] > recorded);
            assert(d.skip(k).push(vs[n]) =~= vs.skip(k));
        } else {
            assert(vs[n] <= recorded);
        }
    }
}

/// The pending versions of an ordered set are the versions after its
/// applied prefix.
pub proof fn lemma_pending_of_ordered(vs: Seq<u64>, recorded: u64)
    requires
        ordered_versions(vs),
    ensures
        pending_versions(vs, recorded) =~= vs.skip(applied_prefix(vs, recorded)),
        upgraded_version(vs, recorded) == (if applied_prefix(vs, recorded) == vs.len() {
            recorded
        } else {
            vs.last()
        }),
{
    lemma_applied_prefix_splits(vs, recorded);
    lemma_pending_is_suffix(vs, recorded, applied_prefix(vs, recorded));
}

/// Upgrading twice is upgrading once: after a complete upgrade nothing of the
/// same set is pending, and a second upgrade leaves the record where it is.
pub proof fn lemma_upgrade_idempotent(vs: Seq<u64>, recorded: u64)
    requires
        ordered_versions(vs),
    ensures
        pending_versions(vs, upgraded_version(vs, recorded)).len() == 0,
        upgraded_version(vs, upgraded_version(vs, recorded)) == upgraded_version(vs, recorded),
{
    lemma_pending_of_ordered(vs, recorded);
    lemma_applied_prefix_splits(vs, recorded);
    let r1 = upgraded_version(vs, recorded);
    let k = applied_prefix(vs, recorded);
    assert(splits_at(vs, r1, vs.len() as int)) by {
        assert forall|i: int| 0 <= i < vs.len() implies #[trigger] vs[i] <= r1 by {
            if k < vs.len() && i < vs.len() - 1 {
                assert(vs[i] < vs[vs.len() - 1]);
            }
        }
    }
    lemma_pending_is_suffix(vs, r1, vs.len() as int);
}

/// Upgrading an empty store with the first `k` steps of a set and later with
/// the whole set runs, the second time, exactly the steps after the first `k`,
/// in order, and ends at the record a single upgrade with the whole set gives.
pub proof fn lemma_upgrade_prefix_then_full(vs: Seq<u64>, k: int)
    requires
        ordered_versions(vs),
        0 <= k <= vs.len(),
    ensures
        pending_versions(vs, upgraded_version(vs.take(k), 0)) =~= vs.skip(k),
        upgraded_version(vs, upgraded_version(vs.take(k), 0)) == upgraded_version(vs, 0),
{
    let p = vs.take(k);
    assert(splits_at(p, 0, 0));
    lemma_pending_is_suffix(p, 0, 0);
    assert(p.skip(0) =~= p);
    let r1 = upgraded_version(p, 0);
    assert(splits_at(vs, r1, k)) by {
        assert forall|i: int| 0 <= i < k implies #[trigger] vs[i] <= r1 by {
            if i < k - 1 {
                assert(vs[i] < vs[k - 1]);
            }
        }
        assert forall|i: int| k <= i < vs.len() implies #[trigger] vs[i] > r1 by {
            if k > 0 {
                assert(vs[k - 1] < vs[i]);
            } else {
                assert(vs[i] > 0);
            }
        }
    }
    lemma_pending_is_suffix(vs, r1, k);
    assert(splits_at(vs, 0, 0));
    lemma_pending_is_suffix(vs, 0, 0);
}

} // verus!
