//! The cache policy for GitHub-sourced `ARCHITECTURE.md` documents: which row
//! belongs to which page, when a cached copy is fresh, what a page request
//! does with what the cache holds, and the rule that at most one background
//! revalidation per page is in flight.

use std::time::{Duration, SystemTime, UNIX_EPOCH};
use vstd::prelude::*;
use crate::fetch::FetchError;

verus! {

/// Seconds a cached Markdown body is treated as fresh before a re-fetch is
/// attempted.
pub const CACHE_TTL_SECS: i64 = 86_400;

/// The pages whose content is an `ARCHITECTURE.md` kept in the cache.
#[derive(Clone, Copy, Debug, PartialEq, Eq, Structural)]
pub enum ArchitectureDocSlot {
    Specifications,
    Ecdis,
    Platform,
}

impl ArchitectureDocSlot {
    /// The cache key of the slot.
    pub open spec fn key_spec(self) -> Seq<char> {
        match self {
            ArchitectureDocSlot::Specifications => "specifications"@,
            ArchitectureDocSlot::Ecdis => "ecdis"@,
            ArchitectureDocSlot::Platform => "platform"@,
        }
    }

    /// The position of the slot among the three.
    pub open spec fn index_spec(self) -> int {
        match self {
            ArchitectureDocSlot::Specifications => 0,
            ArchitectureDocSlot::Ecdis => 1,
            ArchitectureDocSlot::Platform => 2,
        }
    }

    /// The cache key of the slot: the primary key of its row.
    pub fn key(self) -> (k: &'static str)
        ensures
            k@ == self.key_spec(),
    {
        match self {
            ArchitectureDocSlot::Specifications => "specifications",
            ArchitectureDocSlot::Ecdis => "ecdis",
            ArchitectureDocSlot::Platform => "platform",
        }
    }
}

/// The position of a slot among the three, which indexes the per-slot
/// revalidation flags.
pub fn refresh_slot_index(slot: ArchitectureDocSlot) -> (i: usize)
    ensures
        i == slot.index_spec(),
        i < 3,
{
    match slot {
        ArchitectureDocSlot::Specifications => 0,
        ArchitectureDocSlot::Ecdis => 1,
        ArchitectureDocSlot::Platform => 2,
    }
}

/// Different slots have different keys and different indices.
pub proof fn law_slots_are_distinguished(a: ArchitectureDocSlot, b: ArchitectureDocSlot)
    requires
        a != b,
    ensures
        a.key_spec() != b.key_spec(),
        a.index_spec() != b.index_spec(),
{
    reveal_strlit("specifications");
    reveal_strlit("ecdis");
    reveal_strlit("platform");
    assert(a.key_spec().len() != b.key_spec().len());
}

// ---------------------------------------------------------------------------
// Freshness
// ---------------------------------------------------------------------------

/// `a - b`, clamped to the range of `i64` (as `i64::saturating_sub`).
pub open spec fn saturating_sub_i64(a: i64, b: i64) -> int {
    let d = a - b;
    if d > i64::MAX {
        i64::MAX as int
    } else if d < i64::MIN {
        i64::MIN as int
    } else {
        d
    }
}

/// Whether a body fetched at `fetched_at_unix` is still fresh at `now_unix`.
pub open spec fn fresh_at(fetched_at_unix: i64, now_unix: i64) -> bool {
    saturating_sub_i64(now_unix, fetched_at_unix) < CACHE_TTL_SECS
}

/// Whether a body fetched at `fetched_at_unix` is still fresh at `now_unix`:
/// less than [`CACHE_TTL_SECS`] seconds have passed.
pub fn is_fresh_at(fetched_at_unix: i64, now_unix: i64) -> (res: bool)
    ensures
        res == fresh_at(fetched_at_unix, now_unix),
{
    let d: i128 = now_unix as i128 - fetched_at_unix as i128;
    let elapsed: i64 = if d > i64::MAX as i128 {
        i64::MAX
    } else if d < i64::MIN as i128 {
        i64::MIN
    } else {
        d as i64
    };
    elapsed < CACHE_TTL_SECS
}

/// A body is fresh when just fetched, and once stale it stays stale as time
/// goes on.
pub proof fn law_freshness_expires_once(fetched_at_unix: i64, t1: i64, t2: i64)
    requires
        t1 <= t2,
    ensures
        fresh_at(fetched_at_unix, fetched_at_unix),
        fresh_at(fetched_at_unix, t2) ==> fresh_at(fetched_at_unix, t1),
{
}

/// std's `SystemTime`.
#[verifier::external_type_specification]
#[verifier::external_body]
pub struct ExSystemTime(SystemTime);

/// std's `SystemTime::now`: the wall clock, of which nothing is promised.
#[verifier::external_body]
fn system_time_now() -> SystemTime {
    SystemTime::now()
}

/// std's `SystemTime::duration_since(UNIX_EPOCH)`: the time from the Unix
/// epoch to `t`, or `None` when `t` lies before the epoch. Nothing is
/// promised of the value.
#[verifier::external_body]
fn duration_since_unix_epoch(t: &SystemTime) -> Option<Duration> {
    t.duration_since(UNIX_EPOCH).ok()
}

/// std's `Duration::as_secs`: the whole seconds of `d`. Nothing is promised
/// of the value.
#[verifier::external_body]
fn duration_whole_secs(d: &Duration) -> u64 {
    d.as_secs()
}

/// The Unix time, as a signed number of seconds, that a clock reading stands
/// for: the seconds reinterpreted as `i64`, or 0 for a time before the epoch.
pub fn unix_secs_from_reading(reading: Option<u64>) -> (secs: i64)
    ensures
        secs == match reading {
            Some(s) => s as i64,
            None => 0i64,
        },
{
    match reading {
        Some(s) => s as i64,
        None => 0,
    }
}

/// The current Unix time in seconds (0 when the clock reads before the
/// epoch).
pub fn now_unix_secs() -> i64 {
    let now = system_time_now();
    let reading = match duration_since_unix_epoch(&now) {
        Some(d) => Some(duration_whole_secs(&d)),
        None => None,
    };
    unix_secs_from_reading(reading)
}

/// Whether a body fetched at `fetched_at_unix` is still fresh now: the
/// answer is its freshness at the instant the clock was read (so a body
/// stamped in the future, or too close to `i64::MAX` to ever expire, is
/// always fresh).
pub fn is_fresh(fetched_at_unix: i64) -> (res: bool)
    ensures
        exists|now_unix: i64| res == fresh_at(fetched_at_unix, now_unix),
{
    let now = now_unix_secs();
    let res = is_fresh_at(fetched_at_unix, now);
    assert(res == fresh_at(fetched_at_unix, now));
    res
}

// ---------------------------------------------------------------------------
// Revalidation flags
// ---------------------------------------------------------------------------

/// One flag per slot: whether a background revalidation of that slot is in
/// flight.
#[derive(Clone, Copy, Debug, PartialEq, Eq, Structural)]
pub struct RefreshSlots {
    specifications: bool,
    ecdis: bool,
    platform: bool,
}

impl RefreshSlots {
    /// Whether a revalidation of `slot` is in flight.
    pub closed spec fn in_progress(self, slot: ArchitectureDocSlot) -> bool {
        match slot {
            ArchitectureDocSlot::Specifications => self.specifications,
            ArchitectureDocSlot::Ecdis => self.ecdis,
            ArchitectureDocSlot::Platform => self.platform,
        }
    }

    /// The flags with the one of `slot` set to `flag`.
    pub closed spec fn with_flag(self, slot: ArchitectureDocSlot, flag: bool) -> RefreshSlots {
        match slot {
            ArchitectureDocSlot::Specifications => RefreshSlots { specifications: flag, ..self },
            ArchitectureDocSlot::Ecdis => RefreshSlots { ecdis: flag, ..self },
            ArchitectureDocSlot::Platform => RefreshSlots { platform: flag, ..self },
        }
    }

    /// No revalidation in flight.
    pub closed spec fn all_idle(self) -> bool {
        !self.specifications && !self.ecdis && !self.platform
    }

    /// No revalidation in flight.
    pub fn new() -> (s: RefreshSlots)
        ensures
            s.all_idle(),
    {
        RefreshSlots { specifications: false, ecdis: false, platform: false }
    }

    /// Whether a revalidation of `slot` is in flight.
    pub fn is_in_progress(&self, slot: ArchitectureDocSlot) -> (res: bool)
        ensures
            res == self.in_progress(slot),
    {
        match slot {
            ArchitectureDocSlot::Specifications => self.specifications,
            ArchitectureDocSlot::Ecdis => self.ecdis,
            ArchitectureDocSlot::Platform => self.platform,
        }
    }

    /// Claims the revalidation of `slot` (compare-and-set from idle to in
    /// flight): succeeds exactly when none was in flight.
    pub fn try_begin(&mut self, slot: ArchitectureDocSlot) -> (claimed: bool)
        ensures
            claimed == !old(self).in_progress(slot),
            *final(self) == old(self).with_flag(slot, true),
    {
        let idle = !self.is_in_progress(slot);
        match slot {
            ArchitectureDocSlot::Specifications => self.specifications = true,
            ArchitectureDocSlot::Ecdis => self.ecdis = true,
            ArchitectureDocSlot::Platform => self.platform = true,
        }
        idle
    }

    /// Marks the revalidation of `slot` finished.
    pub fn finish(&mut self, slot: ArchitectureDocSlot)
        ensures
            *final(self) == old(self).with_flag(slot, false),
    {
        match slot {
            ArchitectureDocSlot::Specifications => self.specifications = false,
            ArchitectureDocSlot::Ecdis => self.ecdis = false,
            ArchitectureDocSlot::Platform => self.platform = false,
        }
    }

    /// Marks every revalidation finished.
    pub fn finish_all(&mut self)
        ensures
            final(self).all_idle(),
    {
        self.specifications = false;
        self.ecdis = false;
        self.platform = false;
    }
}

/// At most one revalidation per slot is in flight: once a slot is claimed, a
/// second claim of it fails until it is finished, after which a claim
/// succeeds again; claiming or finishing a slot leaves the other slots alone.
pub proof fn law_one_revalidation_per_slot(
    s: RefreshSlots,
    slot: ArchitectureDocSlot,
    other: ArchitectureDocSlot,
)
    requires
        other != slot,
    ensures
        s.with_flag(slot, true).in_progress(slot),
        !s.with_flag(slot, true).with_flag(slot, false).in_progress(slot),
        s.with_flag(slot, true).in_progress(other) == s.in_progress(other),
        s.with_flag(slot, false).in_progress(other) == s.in_progress(other),
{
}

/// Fresh flags have no revalidation in flight.
pub proof fn law_new_flags_are_idle(s: RefreshSlots, slot: ArchitectureDocSlot)
    requires
        s.all_idle(),
    ensures
        !s.in_progress(slot),
{
}

// ---------------------------------------------------------------------------
// Resolving a page's document
// ---------------------------------------------------------------------------

/// Why an architecture document could not be resolved.
#[derive(Clone, Copy, Debug, PartialEq, Eq, Structural)]
pub enum ResolveMarkdownError {
    /// No cached row and the upstream fetch failed: the page answers 503.
    NoCacheAndUpstreamFailed,
}

/// A cached row.
pub struct CachedRow {
    pub source_url: String,
    pub markdown: String,
    pub fetched_at_unix: i64,
}

/// What reading a slot's row gave.
pub enum CacheRead {
    /// The cache could not be read.
    Failed,
    /// The slot has no row.
    Missing,
    /// The slot's row.
    Found(CachedRow),
}

/// What a page request does after reading its slot's row.
#[derive(Debug, PartialEq, Eq)]
pub enum ResolveStep {
    /// Give up: the page is temporarily unavailable.
    Unavailable,
    /// Fetch the document upstream, store it and serve it.
    FetchUpstream,
    /// Serve this body.
    Serve(String),
    /// Serve this (stale) body at once, and revalidate the slot in the
    /// background; the slot's revalidation has been claimed.
    ServeAndRevalidate(String),
}

/// Decides what a page request does with what its slot's row holds, at Unix
/// time `now_unix`.
///
/// A fresh row is served. A stale row is served at once too; if no
/// revalidation of the slot is in flight, one is claimed and the caller
/// starts it in the background. With no row the document is fetched
/// upstream; when the cache cannot be read the page is unavailable.
pub fn resolve_cached(
    refresh: &mut RefreshSlots,
    slot: ArchitectureDocSlot,
    read: CacheRead,
    now_unix: i64,
) -> (step: ResolveStep)
    ensures
        match read {
            CacheRead::Failed => step == ResolveStep::Unavailable && *final(refresh) == *old(
                refresh,
            ),
            CacheRead::Missing => step == ResolveStep::FetchUpstream && *final(refresh) == *old(
                refresh,
            ),
            CacheRead::Found(row) => if fresh_at(row.fetched_at_unix, now_unix) {
                step == ResolveStep::Serve(row.markdown) && *final(refresh) == *old(refresh)
            } else if old(refresh).in_progress(slot) {
                step == ResolveStep::Serve(row.markdown) && *final(refresh) == *old(refresh)
            } else {
                step == ResolveStep::ServeAndRevalidate(row.markdown) && *final(refresh) == old(
                    refresh,
                ).with_flag(slot, true)
            },
        },
{
    match read {
        CacheRead::Failed => ResolveStep::Unavailable,
        CacheRead::Missing => ResolveStep::FetchUpstream,
        CacheRead::Found(row) => {
            if is_fresh_at(row.fetched_at_unix, now_unix) {
                ResolveStep::Serve(row.markdown)
            } else if refresh.try_begin(slot) {
                ResolveStep::ServeAndRevalidate(row.markdown)
            } else {
                ResolveStep::Serve(row.markdown)
            }
        },
    }
}

/// What a page request answers once the upstream fetch it made (the slot had
/// no row) is done: the fetched body, which the caller also stores, or the
/// error that makes the page temporarily unavailable.
pub fn finish_upstream_fetch(fetched: Result<String, FetchError>) -> (r: Result<String, ResolveMarkdownError>)
    ensures
        match fetched {
            Ok(md) => r == Ok::<String, ResolveMarkdownError>(md),
            Err(_) => r == Err::<String, ResolveMarkdownError>(
                ResolveMarkdownError::NoCacheAndUpstreamFailed,
            ),
        },
{
    match fetched {
        Ok(md) => Ok(md),
        Err(_) => Err(ResolveMarkdownError::NoCacheAndUpstreamFailed),
    }
}

} // verus!
