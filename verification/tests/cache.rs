use website::cache::{
    finish_upstream_fetch, is_fresh_at, refresh_slot_index, resolve_cached, unix_secs_from_reading,
    ArchitectureDocSlot, CacheRead, CachedRow, RefreshSlots, ResolveMarkdownError, ResolveStep,
    CACHE_TTL_SECS,
};
use website::fetch::FetchError;

fn row(markdown: &str, fetched_at_unix: i64) -> CacheRead {
    CacheRead::Found(CachedRow {
        source_url: String::from("https://example.com/ARCHITECTURE.md"),
        markdown: String::from(markdown),
        fetched_at_unix,
    })
}

#[test]
fn architecture_slot_keys() {
    assert_eq!(ArchitectureDocSlot::Specifications.key(), "specifications");
    assert_eq!(ArchitectureDocSlot::Ecdis.key(), "ecdis");
    assert_eq!(ArchitectureDocSlot::Platform.key(), "platform");
}

#[test]
fn slot_indices_are_distinct() {
    assert_eq!(refresh_slot_index(ArchitectureDocSlot::Specifications), 0);
    assert_eq!(refresh_slot_index(ArchitectureDocSlot::Ecdis), 1);
    assert_eq!(refresh_slot_index(ArchitectureDocSlot::Platform), 2);
}

#[test]
fn freshness_window() {
    assert!(is_fresh_at(1000, 1000));
    assert!(is_fresh_at(1000, 1000 + CACHE_TTL_SECS - 1));
    assert!(!is_fresh_at(1000, 1000 + CACHE_TTL_SECS));
    assert!(is_fresh_at(5000, 10));
    assert!(!is_fresh_at(i64::MIN, i64::MAX));
    assert!(is_fresh_at(i64::MAX, i64::MIN));
}

#[test]
fn clock_reading_conversion() {
    assert_eq!(unix_secs_from_reading(Some(1_700_000_000)), 1_700_000_000);
    assert_eq!(unix_secs_from_reading(None), 0);
}

#[test]
fn one_revalidation_per_slot() {
    let mut slots = RefreshSlots::new();
    assert!(slots.try_begin(ArchitectureDocSlot::Ecdis));
    assert!(!slots.try_begin(ArchitectureDocSlot::Ecdis));
    assert!(slots.is_in_progress(ArchitectureDocSlot::Ecdis));
    assert!(!slots.is_in_progress(ArchitectureDocSlot::Platform));
    assert!(slots.try_begin(ArchitectureDocSlot::Platform));
    slots.finish(ArchitectureDocSlot::Ecdis);
    assert!(!slots.is_in_progress(ArchitectureDocSlot::Ecdis));
    assert!(slots.try_begin(ArchitectureDocSlot::Ecdis));
    slots.finish_all();
    assert!(!slots.is_in_progress(ArchitectureDocSlot::Platform));
    assert!(!slots.is_in_progress(ArchitectureDocSlot::Specifications));
}

#[test]
fn fresh_row_served() {
    let mut slots = RefreshSlots::new();
    let step = resolve_cached(&mut slots, ArchitectureDocSlot::Specifications, row("# Wire", 100), 200);
    assert_eq!(step, ResolveStep::Serve(String::from("# Wire")));
    assert_eq!(slots, RefreshSlots::new());
}

#[test]
fn stale_row_served_and_revalidated_once() {
    let mut slots = RefreshSlots::new();
    let now = 100 + CACHE_TTL_SECS;
    let first = resolve_cached(&mut slots, ArchitectureDocSlot::Ecdis, row("old", 100), now);
    assert_eq!(first, ResolveStep::ServeAndRevalidate(String::from("old")));
    let second = resolve_cached(&mut slots, ArchitectureDocSlot::Ecdis, row("old", 100), now);
    assert_eq!(second, ResolveStep::Serve(String::from("old")));
    let other = resolve_cached(&mut slots, ArchitectureDocSlot::Platform, row("p", 100), now);
    assert_eq!(other, ResolveStep::ServeAndRevalidate(String::from("p")));
}

#[test]
fn missing_row_fetches_and_unreadable_cache_fails() {
    let mut slots = RefreshSlots::new();
    assert_eq!(
        resolve_cached(&mut slots, ArchitectureDocSlot::Platform, CacheRead::Missing, 0),
        ResolveStep::FetchUpstream
    );
    assert_eq!(
        resolve_cached(&mut slots, ArchitectureDocSlot::Platform, CacheRead::Failed, 0),
        ResolveStep::Unavailable
    );
}

#[test]
fn upstream_fetch_outcomes() {
    assert_eq!(finish_upstream_fetch(Ok(String::from("# Wire"))), Ok(String::from("# Wire")));
    for e in [FetchError::Request, FetchError::UpstreamStatus, FetchError::TooLarge, FetchError::NotUtf8] {
        assert_eq!(
            finish_upstream_fetch(Err(e)),
            Err(ResolveMarkdownError::NoCacheAndUpstreamFailed)
        );
    }
}
