//! The status model: where a snapshot came from, how healthy the provider is,
//! usage windows and per-provider snapshots.
use vstd::prelude::*;

use crate::text::{copy_opt_string, copy_string, opt_view};

verus! {

/// How a snapshot was collected.
#[derive(Clone, Copy, Debug, PartialEq, Eq, Structural)]
pub enum FetchSource {
    Api,
    Cli,
    Web,
    Mock,
    Unknown,
}

/// The state of a provider as the snapshot reports it.
#[derive(Clone, Copy, Debug, PartialEq, Eq, Structural)]
pub enum ProviderHealth {
    Okay,
    Degraded,
    MissingCredentials,
    Error,
}

/// The collection strategy a status request asks for.
#[derive(Clone, Copy, Debug, PartialEq, Eq, Structural)]
pub enum SourceMode {
    Auto,
    Api,
    Cli,
}

impl SourceMode {
    /// The lowercase name of the mode.
    pub open spec fn spec_name(self) -> Seq<char> {
        match self {
            SourceMode::Auto => "auto"@,
            SourceMode::Api => "api"@,
            SourceMode::Cli => "cli"@,
        }
    }

    /// The lowercase name of the mode: `auto`, `api` or `cli`.
    pub fn as_str(self) -> (r: &'static str)
        ensures
            r@ == self.spec_name(),
    {
        match self {
            SourceMode::Auto => "auto",
            SourceMode::Api => "api",
            SourceMode::Cli => "cli",
        }
    }
}

impl Default for SourceMode {
    fn default() -> (r: Self)
        ensures
            r == SourceMode::Auto,
    {
        SourceMode::Auto
    }
}

/// A status request: the source strategy and, optionally, a single provider.
pub struct StatusRequest {
    pub source_mode: SourceMode,
    pub provider: Option<String>,
}

impl StatusRequest {
    /// A copy of the request.
    pub fn duplicate(&self) -> (r: StatusRequest)
        ensures
            r.source_mode == self.source_mode,
            opt_view(r.provider) == opt_view(self.provider),
    {
        StatusRequest { source_mode: self.source_mode, provider: copy_opt_string(&self.provider) }
    }
}

/// What `remaining` is for a window with the given `used` and `limit`.
pub open spec fn spec_remaining(used: Option<u64>, limit: Option<u64>) -> Option<u64> {
    match (used, limit) {
        (Some(u), Some(l)) => if l >= u {
            Some((l - u) as u64)
        } else {
            None
        },
        _ => None,
    }
}

/// One usage window (a quota or a counter).
pub struct UsageWindow {
    pub used: Option<u64>,
    pub limit: Option<u64>,
    pub remaining: Option<u64>,
    pub resets_at: Option<String>,
}

/// The mathematical content of a [`UsageWindow`].
pub struct UsageWindowView {
    pub used: Option<u64>,
    pub limit: Option<u64>,
    pub remaining: Option<u64>,
    pub resets_at: Option<Seq<char>>,
}

impl View for UsageWindow {
    type V = UsageWindowView;

    open spec fn view(&self) -> UsageWindowView {
        UsageWindowView {
            used: self.used,
            limit: self.limit,
            remaining: self.remaining,
            resets_at: opt_view(self.resets_at),
        }
    }
}

/// The view of an optional window.
pub open spec fn opt_window_view(w: Option<UsageWindow>) -> Option<UsageWindowView> {
    match w {
        Some(v) => Some(v@),
        None => None,
    }
}

/// The window that `UsageWindow::new(used, limit)` builds.
pub open spec fn spec_window(used: Option<u64>, limit: Option<u64>) -> UsageWindowView {
    UsageWindowView {
        used: used,
        limit: limit,
        remaining: spec_remaining(used, limit),
        resets_at: None,
    }
}

impl UsageWindow {
    /// A window with `remaining = limit - used` when both are known and
    /// `limit >= used`, and no reset time.
    pub fn new(used: Option<u64>, limit: Option<u64>) -> (r: UsageWindow)
        ensures
            r@ == spec_window(used, limit),
    {
        let remaining = match (used, limit) {
            (Some(u), Some(l)) => if l >= u {
                Some(l - u)
            } else {
                None
            },
            _ => None,
        };
        UsageWindow { used, limit, remaining, resets_at: None }
    }

    /// A copy of the window.
    pub fn duplicate(&self) -> (r: UsageWindow)
        ensures
            r@ == self@,
    {
        UsageWindow {
            used: self.used,
            limit: self.limit,
            remaining: self.remaining,
            resets_at: copy_opt_string(&self.resets_at),
        }
    }
}

/// A copy of an optional window.
pub fn copy_opt_window(w: &Option<UsageWindow>) -> (r: Option<UsageWindow>)
    ensures
        opt_window_view(r) == opt_window_view(*w),
{
    match w {
        Some(v) => Some(v.duplicate()),
        None => None,
    }
}

/// The status of one provider.
pub struct UsageSnapshot {
    pub provider: String,
    pub primary: UsageWindow,
    pub secondary: Option<UsageWindow>,
    pub prompt_tokens: Option<u32>,
    pub completion_tokens: Option<u32>,
    pub total_tokens: Option<u32>,
    pub source: FetchSource,
    pub health: ProviderHealth,
    pub updated_at: Option<String>,
    pub stale: bool,
    pub error: Option<String>,
    pub account: Option<String>,
    pub plan: Option<String>,
    pub auth_mode: Option<String>,
}

/// The mathematical content of a [`UsageSnapshot`].
pub struct UsageSnapshotView {
    pub provider: Seq<char>,
    pub primary: UsageWindowView,
    pub secondary: Option<UsageWindowView>,
    pub prompt_tokens: Option<u32>,
    pub completion_tokens: Option<u32>,
    pub total_tokens: Option<u32>,
    pub source: FetchSource,
    pub health: ProviderHealth,
    pub updated_at: Option<Seq<char>>,
    pub stale: bool,
    pub error: Option<Seq<char>>,
    pub account: Option<Seq<char>>,
    pub plan: Option<Seq<char>>,
    pub auth_mode: Option<Seq<char>>,
}

impl View for UsageSnapshot {
    type V = UsageSnapshotView;

    open spec fn view(&self) -> UsageSnapshotView {
        UsageSnapshotView {
            provider: self.provider@,
            primary: self.primary@,
            secondary: opt_window_view(self.secondary),
            prompt_tokens: self.prompt_tokens,
            completion_tokens: self.completion_tokens,
            total_tokens: self.total_tokens,
            source: self.source,
            health: self.health,
            updated_at: opt_view(self.updated_at),
            stale: self.stale,
            error: opt_view(self.error),
            account: opt_view(self.account),
            plan: opt_view(self.plan),
            auth_mode: opt_view(self.auth_mode),
        }
    }
}

/// The snapshot that `UsageSnapshot::new` builds: everything optional absent,
/// not stale.
pub open spec fn spec_snapshot(
    provider: Seq<char>,
    primary: UsageWindowView,
    source: FetchSource,
    health: ProviderHealth,
) -> UsageSnapshotView {
    UsageSnapshotView {
        provider: provider,
        primary: primary,
        secondary: None,
        prompt_tokens: None,
        completion_tokens: None,
        total_tokens: None,
        source: source,
        health: health,
        updated_at: None,
        stale: false,
        error: None,
        account: None,
        plan: None,
        auth_mode: None,
    }
}

impl UsageSnapshot {
    /// A fresh snapshot with only the provider, primary window, source and health set.
    pub fn new(provider: &str, primary: UsageWindow, source: FetchSource, health: ProviderHealth) -> (r:
        UsageSnapshot)
        ensures
            r@ == spec_snapshot(provider@, primary@, source, health),
    {
        UsageSnapshot {
            provider: String::from_str(provider),
            primary,
            secondary: None,
            prompt_tokens: None,
            completion_tokens: None,
            total_tokens: None,
            source,
            health,
            updated_at: None,
            stale: false,
            error: None,
            account: None,
            plan: None,
            auth_mode: None,
        }
    }

    /// A copy of the snapshot.
    pub fn duplicate(&self) -> (r: UsageSnapshot)
        ensures
            r@ == self@,
    {
        UsageSnapshot {
            provider: copy_string(&self.provider),
            primary: self.primary.duplicate(),
            secondary: copy_opt_window(&self.secondary),
            prompt_tokens: self.prompt_tokens,
            completion_tokens: self.completion_tokens,
            total_tokens: self.total_tokens,
            source: self.source,
            health: self.health,
            updated_at: copy_opt_string(&self.updated_at),
            stale: self.stale,
            error: copy_opt_string(&self.error),
            account: copy_opt_string(&self.account),
            plan: copy_opt_string(&self.plan),
            auth_mode: copy_opt_string(&self.auth_mode),
        }
    }
}


/// What remains of a window never exceeds its limit, and what is used and what
/// remains add up to the limit whenever anything is said to remain.
pub proof fn law_window_remaining_adds_up(used: Option<u64>, limit: Option<u64>)
    ensures
        spec_window(used, limit).remaining matches Some(r) ==> (limit matches Some(l) && (used matches Some(
            u,
        ) && r <= l && u + r == l)),
        (used matches Some(u) && limit matches Some(l) && u <= l) ==> spec_window(
            used,
            limit,
        ).remaining is Some,
{
}

} // verus!
