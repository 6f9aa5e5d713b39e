use veya_core::cache::plan_eviction;
use veya_core::cache::CacheEntry;

const DAY: u64 = 86_400;
const MB: u64 = 1_024 * 1_024;

fn entry(path: &str, size_bytes: u64, age_secs: u64, now: u64) -> CacheEntry {
    CacheEntry {
        path: path.to_string(),
        size_bytes,
        modified_at: now - age_secs,
    }
}

fn paths(entries: &[CacheEntry]) -> Vec<String> {
    entries.iter().map(|e| e.path.clone()).collect()
}

#[test]
fn eviction_removes_only_files_over_max_age() {
    let now = 400 * DAY;
    let entries = vec![
        entry("fresh.mp3", MB, 0, now),
        entry("ten_days.mp3", MB, 10 * DAY, now),
        entry("forty_days.mp3", MB, 40 * DAY, now),
    ];
    let (keep, delete) = plan_eviction(entries, now, 500 * MB, 30);
    assert_eq!(paths(&delete), vec!["forty_days.mp3"]);
    let mut kept = paths(&keep);
    kept.sort();
    assert_eq!(kept, vec!["fresh.mp3", "ten_days.mp3"]);
}

#[test]
fn eviction_trims_oldest_first_to_size_budget() {
    let now = 400 * DAY;
    // Ten fresh 1 MB files, oldest first, totalling 10 MB against a 5 MB budget.
    let mut entries = Vec::new();
    for i in 0..10u64 {
        entries.push(entry(&format!("f{}.mp3", i), MB, 3600 * (10 - i), now));
    }
    let (keep, delete) = plan_eviction(entries, now, 5 * MB, 30);
    let total: u64 = keep.iter().map(|e| e.size_bytes).sum();
    assert!(total <= 5 * MB);
    assert_eq!(keep.len(), 5);
    assert_eq!(delete.len(), 5);
    // The five oldest went; the five newest stayed.
    for e in &delete {
        for k in &keep {
            assert!(e.modified_at <= k.modified_at);
        }
    }
    let kept = paths(&keep);
    for i in 5..10u64 {
        assert!(kept.contains(&format!("f{}.mp3", i)));
    }
}

#[test]
fn eviction_runs_both_phases() {
    let now = 400 * DAY;
    let entries = vec![
        entry("ancient.mp3", MB, 90 * DAY, now),
        entry("old_big.mp3", 4 * MB, 2 * DAY, now),
        entry("new_big.mp3", 4 * MB, DAY, now),
    ];
    // Phase one removes the ancient file; phase two must still trim the
    // older of the two big ones to fit 4 MB.
    let (keep, delete) = plan_eviction(entries, now, 4 * MB, 30);
    assert_eq!(paths(&keep), vec!["new_big.mp3"]);
    let mut gone = paths(&delete);
    gone.sort();
    assert_eq!(gone, vec!["ancient.mp3", "old_big.mp3"]);
}

#[test]
fn eviction_on_empty_listing_is_a_noop() {
    let (keep, delete) = plan_eviction(Vec::new(), 1000, 5 * MB, 30);
    assert!(keep.is_empty());
    assert!(delete.is_empty());
}

#[test]
fn eviction_keeps_everything_within_budget_and_age() {
    let now = 400 * DAY;
    let entries = vec![
        entry("a.mp3", MB, DAY, now),
        entry("b.mp3", MB, 2 * DAY, now),
    ];
    let (keep, delete) = plan_eviction(entries, now, 500 * MB, 30);
    assert_eq!(keep.len(), 2);
    assert!(delete.is_empty());
}
