//! The status cache: what a cached record holds, when it is fresh, which file
//! it goes to, and how a stale fallback is marked.
use vstd::prelude::*;

use crate::env::{app_file_path, spec_app_file, HostEnvironment};
use crate::status_map::{entries_map, ProviderMap};
use crate::text::{concat3, concat_str, copy_string, opt_view};
use crate::usage::{SourceMode, UsageSnapshot, UsageSnapshotView};

verus! {

/// Seconds since the Unix epoch by the system clock, or 0 when the clock is
/// before the epoch (std `SystemTime::now` and `duration_since(UNIX_EPOCH)`).
/// Nothing is claimed of the value: it is the time.
#[verifier::external_body]
pub(crate) fn now_unix_seconds() -> u64 {
    std::time::SystemTime::now().duration_since(std::time::UNIX_EPOCH).map(|d| d.as_secs()).unwrap_or(
        0,
    )
}

/// A saved status result.
pub struct StatusCacheRecord {
    pub source_mode: SourceMode,
    pub provider_filter: Option<String>,
    pub cached_at_unix: u64,
    pub providers: ProviderMap,
}

/// A record is fresh when at most `ttl` seconds have passed since it was saved;
/// a record from the future counts as just saved.
pub open spec fn spec_is_fresh(cached_at: u64, now: u64, ttl: u64) -> bool {
    (if now >= cached_at {
        now - cached_at
    } else {
        0
    }) <= ttl
}

impl StatusCacheRecord {
    /// A record saved at `now`.
    pub fn new_at(
        source_mode: SourceMode,
        provider_filter: Option<String>,
        providers: ProviderMap,
        now: u64,
    ) -> (r: StatusCacheRecord)
        ensures
            r.source_mode == source_mode,
            opt_view(r.provider_filter) == opt_view(provider_filter),
            r.providers@ == providers@,
            r.cached_at_unix == now,
    {
        StatusCacheRecord { source_mode, provider_filter, cached_at_unix: now, providers }
    }

    /// A record saved now, by the system clock.
    pub fn new(source_mode: SourceMode, provider_filter: Option<String>, providers: ProviderMap) -> (r:
        StatusCacheRecord)
        ensures
            r.source_mode == source_mode,
            opt_view(r.provider_filter) == opt_view(provider_filter),
            r.providers@ == providers@,
    {
        let now = now_unix_seconds();
        Self::new_at(source_mode, provider_filter, providers, now)
    }

    /// Whether the record is fresh at time `now` for a lifetime of `ttl_seconds`.
    pub fn is_fresh_at(&self, now: u64, ttl_seconds: u64) -> (r: bool)
        ensures
            r == spec_is_fresh(self.cached_at_unix, now, ttl_seconds),
    {
        now.saturating_sub(self.cached_at_unix) <= ttl_seconds
    }

    /// Whether the record is fresh now, by the system clock: the answer is that
    /// of [`Self::is_fresh_at`] at some time, and a lifetime that reaches past
    /// the clock's last second makes every record fresh.
    pub fn is_fresh(&self, ttl_seconds: u64) -> (r: bool)
        ensures
            exists|now: u64| r == #[trigger] spec_is_fresh(self.cached_at_unix, now, ttl_seconds),
            u64::MAX - self.cached_at_unix <= ttl_seconds ==> r,
    {
        let now = now_unix_seconds();
        let r = self.is_fresh_at(now, ttl_seconds);
        assert(r == spec_is_fresh(self.cached_at_unix, now, ttl_seconds));
        r
    }
}

/// The cache file name for a source mode and an optional provider filter.
pub open spec fn spec_cache_file_name(mode: SourceMode, provider: Option<Seq<char>>) -> Seq<char> {
    match provider {
        Some(p) => "status-cache-"@ + mode.spec_name() + "-"@ + p + ".json"@,
        None => "status-cache-"@ + mode.spec_name() + ".json"@,
    }
}

/// The cache file name for a source mode and an optional provider filter.
pub fn cache_file_name(mode: SourceMode, provider: Option<&str>) -> (r: String)
    ensures
        r@ == spec_cache_file_name(
            mode,
            match provider {
                Some(p) => Some(p@),
                None => None,
            },
        ),
{
    let head = concat_str("status-cache-", mode.as_str());
    match provider {
        Some(p) => {
            let a = concat3(head.as_str(), "-", p);
            concat_str(a.as_str(), ".json")
        },
        None => concat_str(head.as_str(), ".json"),
    }
}

/// The cache file path: `$XDG_CACHE_HOME/codexbar/<name>`, else
/// `$HOME/.cache/codexbar/<name>`, else the bare name.
pub open spec fn spec_cache_path(
    xdg_cache_home: Option<Seq<char>>,
    home: Option<Seq<char>>,
    mode: SourceMode,
    provider: Option<Seq<char>>,
) -> Seq<char> {
    spec_app_file(xdg_cache_home, home, ".cache"@, spec_cache_file_name(mode, provider))
}

/// The path of the cache file for a source mode and an optional provider filter.
pub fn cache_path_for(mode: SourceMode, provider_filter: Option<&str>, env: &HostEnvironment) -> (r:
    String)
    ensures
        r@ == spec_cache_path(
            opt_view(env.xdg_cache_home),
            opt_view(env.home),
            mode,
            match provider_filter {
                Some(p) => Some(p@),
                None => None,
            },
        ),
{
    let name = cache_file_name(mode, provider_filter);
    app_file_path(&env.xdg_cache_home, &env.home, ".cache", name.as_str())
}

/// The error text of a snapshot served from the cache after a failure.
pub open spec fn spec_fallback_error(existing: Option<Seq<char>>, reason: Seq<char>) -> Seq<char> {
    match existing {
        Some(e) => e + "; fallback cache used: "@ + reason,
        None => "fallback cache used: "@ + reason,
    }
}

/// A cached snapshot marked as a stale fallback for `reason`.
pub open spec fn spec_stale_snapshot(s: UsageSnapshotView, reason: Seq<char>) -> UsageSnapshotView {
    UsageSnapshotView { stale: true, error: Some(spec_fallback_error(s.error, reason)), ..s }
}

/// A cached snapshot marked as a stale fallback.
pub fn stale_snapshot(snapshot: &UsageSnapshot, reason: &str) -> (r: UsageSnapshot)
    ensures
        r@ == spec_stale_snapshot(snapshot@, reason@),
{
    let mut s = snapshot.duplicate();
    s.stale = true;
    let message = match &snapshot.error {
        Some(existing) => concat3(existing.as_str(), "; fallback cache used: ", reason),
        None => concat_str("fallback cache used: ", reason),
    };
    s.error = Some(message);
    s
}

proof fn lemma_entries_map_take(s: Seq<(String, UsageSnapshot)>, i: int)
    requires
        0 <= i < s.len(),
    ensures
        entries_map(s.take(i + 1)) == entries_map(s.take(i)).insert(s[i].0@, s[i].1@),
{
    assert(s.take(i + 1).drop_last() =~= s.take(i));
}

/// Every cached snapshot marked stale, with the reason appended to its error.
pub fn stale_cached_providers(providers: &ProviderMap, reason: &str) -> (r: ProviderMap)
    ensures
        r@ == providers@.map_values(|s: UsageSnapshotView| spec_stale_snapshot(s, reason@)),
{
    let entries = providers.entries();
    let mut out = ProviderMap::new();
    let mut i: usize = 0;
    while i < entries.len()
        invariant
            i <= entries@.len(),
            entries_map(entries@) == providers@,
            out@ == entries_map(entries@.take(i as int)).map_values(
                |s: UsageSnapshotView| spec_stale_snapshot(s, reason@),
            ),
        decreases entries@.len() - i,
    {
        let name = copy_string(&entries[i].0);
        let snapshot = stale_snapshot(&entries[i].1, reason);
        proof {
            lemma_entries_map_take(entries@, i as int);
        }
        out.insert(name, snapshot);
        assert(out@ =~= entries_map(entries@.take(i + 1)).map_values(
            |s: UsageSnapshotView| spec_stale_snapshot(s, reason@),
        ));
        i += 1;
    }
    assert(entries@.take(entries@.len() as int) =~= entries@);
    out
}


/// A record is fresh for any lifetime at the moment it is saved, and a record
/// that is fresh for one lifetime is fresh for every longer one.
pub proof fn law_freshness_monotone_in_ttl(cached_at: u64, now: u64, ttl: u64, longer: u64)
    ensures
        spec_is_fresh(cached_at, cached_at, ttl),
        spec_is_fresh(cached_at, now, ttl) && ttl <= longer ==> spec_is_fresh(cached_at, now, longer),
{
}

/// One cache file per source mode: different modes never share a file, and a
/// provider-specific file is never the shared file of its mode.
pub proof fn law_cache_files_are_distinct(
    m1: SourceMode,
    m2: SourceMode,
    p1: Option<Seq<char>>,
    p2: Option<Seq<char>>,
)
    ensures
        m1 != m2 ==> spec_cache_file_name(m1, p1) != spec_cache_file_name(m2, p2),
        p1 is Some ==> spec_cache_file_name(m1, p1) != spec_cache_file_name(m1, None),
{
    reveal_strlit("status-cache-");
    reveal_strlit("auto");
    reveal_strlit("api");
    reveal_strlit("cli");
    reveal_strlit("-");
    reveal_strlit(".json");
    let a = spec_cache_file_name(m1, p1);
    let b = spec_cache_file_name(m2, p2);
    if m1 != m2 {
        // the names differ at the first character of the mode
        assert(a[13] == m1.spec_name()[0]);
        assert(b[13] == m2.spec_name()[0]);
        if m1.spec_name()[0] == m2.spec_name()[0] {
            // `auto` and `api` share their first letter: they differ at the second
            assert(a[14] == m1.spec_name()[1]);
            assert(b[14] == m2.spec_name()[1]);
        }
    }
    if p1 is Some {
        let c = spec_cache_file_name(m1, None);
        let k: int = 13 + m1.spec_name().len() as int;
        assert(a[k] == '-');
        assert(c[k] == '.');
    }
}

/// The stale fallback keeps every provider and marks each snapshot stale,
/// with an error that ends in the reason.
pub proof fn law_stale_fallback_marks_every_snapshot(
    providers: Map<Seq<char>, UsageSnapshotView>,
    reason: Seq<char>,
)
    ensures
        providers.map_values(|s: UsageSnapshotView| spec_stale_snapshot(s, reason)).dom()
            == providers.dom(),
        forall|k: Seq<char>| #[trigger]
            providers.contains_key(k) ==> {
                let s = providers.map_values(
                    |s: UsageSnapshotView| spec_stale_snapshot(s, reason),
                )[k];
                &&& s.stale
                &&& s.error matches Some(e) && e.len() >= reason.len() && e.subrange(
                    e.len() - reason.len(),
                    e.len() as int,
                ) == reason
                &&& s.provider == providers[k].provider
                &&& s.primary == providers[k].primary
            },
{
    assert(providers.map_values(|s: UsageSnapshotView| spec_stale_snapshot(s, reason)).dom()
        =~= providers.dom());
    assert forall|k: Seq<char>| #[trigger] providers.contains_key(k) implies {
        let s = providers.map_values(|s: UsageSnapshotView| spec_stale_snapshot(s, reason))[k];
        &&& s.stale
        &&& s.error matches Some(e) && e.len() >= reason.len() && e.subrange(
            e.len() - reason.len(),
            e.len() as int,
        ) == reason
        &&& s.provider == providers[k].provider
        &&& s.primary == providers[k].primary
    } by {
        let e = spec_fallback_error(providers[k].error, reason);
        match providers[k].error {
            Some(x) => {
                assert(e == (x + "; fallback cache used: "@) + reason);
                assert(e.subrange(e.len() - reason.len(), e.len() as int) =~= reason);
            },
            None => {
                assert(e.subrange(e.len() - reason.len(), e.len() as int) =~= reason);
            },
        }
    }
}

} // verus!
