//! Age-then-size two-phase cache eviction policy.
//!
//! The policy is planned here as a pure decision over directory entries:
//! given each file's size and last-modified time, it says which files to
//! delete and which to keep. The caller scans the directory, runs the
//! plan, and performs the best-effort deletions.

use vstd::prelude::*;
use vstd::seq_lib::group_to_multiset_ensures;

verus! {

broadcast use group_to_multiset_ensures;

/// One regular file found in the cache directory.
pub struct CacheEntry {
    pub path: String,
    pub size_bytes: u64,
    /// Last-modified time, in seconds since an arbitrary epoch.
    pub modified_at: u64,
}

/// Seconds in a day.
pub const SECONDS_PER_DAY: u64 = 86400;

/// An entry is expired when its age strictly exceeds `max_age_days` days.
pub open spec fn expired(e: CacheEntry, now: u64, max_age_days: u32) -> bool {
    e.modified_at < now && now - e.modified_at > max_age_days * (SECONDS_PER_DAY as int)
}

/// Total size of a run of entries.
pub open spec fn sum_sizes(s: Seq<CacheEntry>) -> int
    decreases s.len(),
{
    if s.len() == 0 {
        0
    } else {
        s[0].size_bytes + sum_sizes(s.drop_first())
    }
}

/// Entries are ordered oldest-first.
pub open spec fn sorted_by_mtime(s: Seq<CacheEntry>) -> bool {
    forall|i: int, j: int| 0 <= i < j < s.len() ==> s[i].modified_at <= s[j].modified_at
}

proof fn lemma_sum_sizes_bounds(s: Seq<CacheEntry>)
    ensures
        0 <= sum_sizes(s) <= s.len() * (u64::MAX as int),
    decreases s.len(),
{
    if s.len() > 0 {
        lemma_sum_sizes_bounds(s.drop_first());
    }
}

/// Whether this entry's age strictly exceeds the retention window.
pub fn is_expired(e: &CacheEntry, now: u64, max_age_days: u32) -> (r: bool)
    ensures
        r == expired(*e, now, max_age_days),
{
    let limit: u64 = (max_age_days as u64) * SECONDS_PER_DAY;
    e.modified_at < now && now - e.modified_at > limit
}

/// Decides which cache entries to delete.
///
/// Phase one removes every entry older than `max_age_days` days. Phase
/// two, run even when phase one removed nothing, removes survivors
/// oldest-first until the total kept size is within `max_total_bytes`.
///
/// Returns `(keep, delete)`: together a rearrangement of the input;
/// `keep` is ordered oldest-first; nothing expired is kept; the kept
/// total is within budget; only entries no newer than every kept entry
/// are sacrificed for space, and the last such sacrifice would not have
/// fit.
#[verifier::loop_isolation(false)]
pub fn plan_eviction(
    entries: Vec<CacheEntry>,
    now: u64,
    max_total_bytes: u64,
    max_age_days: u32,
) -> (r: (Vec<CacheEntry>, Vec<CacheEntry>))
    ensures
        r.0@.to_multiset().add(r.1@.to_multiset()) =~= entries@.to_multiset(),
        sorted_by_mtime(r.0@),
        forall|i: int| 0 <= i < r.0@.len() ==> !expired(#[trigger] r.0@[i], now, max_age_days),
        sum_sizes(r.0@) <= max_total_bytes,
        forall|i: int|
            0 <= i < r.1@.len() ==> expired(#[trigger] r.1@[i], now, max_age_days) || (forall|
                j: int,
            |
                0 <= j < r.0@.len() ==> r.1@[i].modified_at <= #[trigger] r.0@[j].modified_at),
        (exists|i: int|
            0 <= i < r.1@.len() && !expired(#[trigger] r.1@[i], now, max_age_days)) ==> {
            &&& r.1@.len() > 0
            &&& !expired(r.1@.last(), now, max_age_days)
            &&& sum_sizes(r.0@) + r.1@.last().size_bytes > max_total_bytes
        },
{
    let ghost orig = entries@;
    let mut rest = entries;
    let mut fresh: Vec<CacheEntry> = Vec::new();
    let mut delete: Vec<CacheEntry> = Vec::new();

    // Phase one: separate expired entries from survivors.
    while rest.len() > 0
        invariant
            fresh@.to_multiset().add(delete@.to_multiset()).add(rest@.to_multiset())
                =~= orig.to_multiset(),
            forall|i: int| 0 <= i < fresh@.len() ==> !expired(#[trigger] fresh@[i], now, max_age_days),
            forall|i: int| 0 <= i < delete@.len() ==> expired(#[trigger] delete@[i], now, max_age_days),
        decreases rest.len(),
    {
        let ghost pre = rest@;
        let e = rest_pop(&mut rest);
        proof {
            assert(pre.drop_last() =~= pre.remove(pre.len() - 1));
            assert(rest@.to_multiset().insert(e) =~= pre.to_multiset());
        }
        if is_expired(&e, now, max_age_days) {
            delete.push(e);
        } else {
            fresh.push(e);
        }
    }

    // Sort the survivors oldest-first by repeatedly extracting a minimum.
    let mut sorted: Vec<CacheEntry> = Vec::new();
    while fresh.len() > 0
        invariant
            sorted@.to_multiset().add(fresh@.to_multiset()).add(delete@.to_multiset())
                =~= orig.to_multiset(),
            sorted_by_mtime(sorted@),
            forall|i: int, j: int|
                0 <= i < sorted@.len() && 0 <= j < fresh@.len() ==> (#[trigger] sorted@[i]).modified_at
                    <= (#[trigger] fresh@[j]).modified_at,
            forall|i: int| 0 <= i < sorted@.len() ==> !expired(#[trigger] sorted@[i], now, max_age_days),
            forall|i: int| 0 <= i < fresh@.len() ==> !expired(#[trigger] fresh@[i], now, max_age_days),
            forall|i: int| 0 <= i < delete@.len() ==> expired(#[trigger] delete@[i], now, max_age_days),
        decreases fresh.len(),
    {
        let mut mi: usize = 0;
        let mut q: usize = 1;
        while q < fresh.len()
            invariant
                mi < fresh@.len(),
                q <= fresh@.len(),
                forall|k: int| 0 <= k < q ==> fresh@[mi as int].modified_at <= (#[trigger] fresh@[k]).modified_at,
            decreases fresh.len() - q,
        {
            if fresh[q].modified_at < fresh[mi].modified_at {
                mi = q;
            }
            q = q + 1;
        }
        let ghost pre = fresh@;
        let ghost pre_sorted = sorted@;
        let e = fresh.remove(mi);
        sorted.push(e);
        proof {
            assert(pre.contains(pre[mi as int]));
            assert(fresh@.to_multiset() =~= pre.to_multiset().remove(e));
            assert(sorted@.to_multiset() =~= pre_sorted.to_multiset().insert(e));
            assert(sorted@.to_multiset().add(fresh@.to_multiset()).add(delete@.to_multiset())
                =~= orig.to_multiset());
        }
    }

    // Phase two: trim oldest-first until the kept total fits the budget.
    let mut keep = sorted;
    let mut total: u128 = 0;
    let mut i: usize = 0;
    while i < keep.len()
        invariant
            i <= keep@.len(),
            total == sum_sizes(keep@.take(i as int)),
            total <= (i as int) * (u64::MAX as int),
        decreases keep.len() - i,
    {
        proof {
            assert(keep@.take(i + 1).drop_last() =~= keep@.take(i as int));
            lemma_sum_sizes_last(keep@.take(i + 1));
        }
        total = total + keep[i].size_bytes as u128;
        i = i + 1;
    }
    proof {
        assert(keep@.take(keep@.len() as int) =~= keep@);
    }

    while total > max_total_bytes as u128
        invariant
            total == sum_sizes(keep@),
            sorted_by_mtime(keep@),
            keep@.to_multiset().add(delete@.to_multiset()) =~= orig.to_multiset(),
            forall|i: int| 0 <= i < keep@.len() ==> !expired(#[trigger] keep@[i], now, max_age_days),
            forall|i: int|
                0 <= i < delete@.len() ==> expired(#[trigger] delete@[i], now, max_age_days) || (forall|
                    j: int,
                |
                    0 <= j < keep@.len() ==> delete@[i].modified_at <= (#[trigger] keep@[j]).modified_at),
            (exists|i: int|
                0 <= i < delete@.len() && !expired(#[trigger] delete@[i], now, max_age_days)) ==> {
                &&& delete@.len() > 0
                &&& !expired(delete@.last(), now, max_age_days)
                &&& sum_sizes(keep@) + delete@.last().size_bytes > max_total_bytes
            },
        decreases keep.len(),
    {
        proof {
            if keep@.len() == 0 {
                assert(sum_sizes(keep@) == 0);
            }
            lemma_sum_sizes_bounds(keep@.drop_first());
        }
        let ghost pre = keep@;
        let ghost pre_delete = delete@;
        let e = keep.remove(0);
        total = total - e.size_bytes as u128;
        delete.push(e);
        proof {
            assert(keep@ =~= pre.drop_first());
            assert(pre.contains(pre[0]));
            assert(keep@.to_multiset() =~= pre.to_multiset().remove(e));
            assert(delete@.to_multiset() =~= pre_delete.to_multiset().insert(e));
            assert(keep@.to_multiset().add(delete@.to_multiset()) =~= orig.to_multiset());
            assert(delete@.last() == e);
        }
    }

    (keep, delete)
}

proof fn lemma_sum_sizes_last(s: Seq<CacheEntry>)
    requires
        s.len() > 0,
    ensures
        sum_sizes(s) == sum_sizes(s.drop_last()) + s.last().size_bytes,
    decreases s.len(),
{
    assert(sum_sizes(s) == s[0].size_bytes + sum_sizes(s.drop_first()));
    if s.len() == 1 {
        assert(s.drop_last().len() == 0);
        assert(sum_sizes(s.drop_last()) == 0);
        assert(s.drop_first().len() == 0);
        assert(sum_sizes(s.drop_first()) == 0);
        assert(s.last() == s[0]);
    } else {
        lemma_sum_sizes_last(s.drop_first());
        assert(s.drop_first().drop_last() =~= s.drop_last().drop_first());
        assert(s.last() == s.drop_first().last());
        assert(s.drop_last()[0] == s[0]);
        assert(sum_sizes(s.drop_last()) == s[0].size_bytes + sum_sizes(s.drop_last().drop_first()));
    }
}

/// Removes and returns the last element of a non-empty vector.
fn rest_pop(v: &mut Vec<CacheEntry>) -> (r: CacheEntry)
    requires
        old(v)@.len() > 0,
    ensures
        r == old(v)@.last(),
        final(v)@ =~= old(v)@.drop_last(),
{
    let r = v.pop();
    match r {
        Some(e) => e,
        None => unreached(),
    }
}

} // verus!
