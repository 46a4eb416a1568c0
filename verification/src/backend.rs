//! The backend: how a status request is served from the cache or from live
//! collection, and the diagnostics report.
use vstd::prelude::*;

use crate::cache::{
    cache_path_for, spec_cache_path, spec_is_fresh, spec_stale_snapshot, stale_cached_providers,
    StatusCacheRecord,
};
use crate::config::{config_path, spec_config_path, AppConfig};
use crate::env::HostEnvironment;
use crate::providers::{provider_names, spec_provider_names};
use crate::status_map::ProviderMap;
use crate::text::{
    ascii_lowercase, concat3, concat_str, copy_opt_string, decimal, opt_view, trim, trim_string,
    u64_to_string,
};
use crate::providers::normalize_provider_name;
use crate::providers::openai::{spec_api_key, usable};
use crate::usage::{SourceMode, StatusRequest, UsageSnapshotView};

verus! {

// ---------------------------------------------------------------------------
// Inputs and outputs
// ---------------------------------------------------------------------------

/// A status request as the CLI or a GUI makes it.
pub struct BackendStatusInput {
    pub source: Option<SourceMode>,
    pub provider: Option<String>,
    pub refresh: bool,
    pub no_cache: bool,
}

/// A diagnostics request.
pub struct BackendDoctorInput {
    pub source: Option<SourceMode>,
}

/// The snapshots of a status request.
pub struct BackendStatusOutput {
    pub providers: ProviderMap,
}

/// The resolved configuration path.
pub struct BackendConfigPathOutput {
    pub config_path: String,
}

/// The outcome of one diagnostic check.
#[derive(Clone, Copy, Debug, PartialEq, Eq, Structural)]
pub enum DoctorStatus {
    Okay,
    Warning,
}

/// One diagnostic check.
pub struct DoctorCheck {
    pub name: String,
    pub status: DoctorStatus,
    pub message: String,
}

/// How many checks ended in each status.
#[derive(Clone, Copy, Debug, PartialEq, Eq, Structural)]
pub struct DoctorSummary {
    pub ok: usize,
    pub warning: usize,
    pub error: usize,
}

/// The diagnostics report.
pub struct BackendDoctorOutput {
    pub source_mode: SourceMode,
    pub summary: DoctorSummary,
    pub checks: Vec<DoctorCheck>,
}

// ---------------------------------------------------------------------------
// Serving a status request
// ---------------------------------------------------------------------------

/// How a status request is to be served.
pub struct StatusPlan {
    pub request: StatusRequest,
    pub cache_enabled: bool,
    pub ttl_seconds: u64,
    pub refresh: bool,
}

/// The lowercase of an optional provider name.
pub open spec fn lowercase_opt(p: Option<Seq<char>>) -> Option<Seq<char>> {
    match p {
        Some(v) => Some(ascii_lowercase(v)),
        None => None,
    }
}

/// The plan for a request: the requested source or the configured default, the
/// provider name in lowercase, the cache used unless disabled by the
/// configuration or by the request.
pub fn plan_status(input: &BackendStatusInput, config: &AppConfig) -> (r: StatusPlan)
    ensures
        r.request.source_mode == (match input.source {
            Some(s) => s,
            None => config.status.default_source,
        }),
        opt_view(r.request.provider) == lowercase_opt(opt_view(input.provider)),
        r.cache_enabled == (config.status.cache_enabled && !input.no_cache),
        r.ttl_seconds == config.status.cache_ttl_seconds,
        r.refresh == input.refresh,
{
    let source_mode = match input.source {
        Some(s) => s,
        None => config.status.default_source,
    };
    let provider = match &input.provider {
        Some(p) => Some(normalize_provider_name(p.as_str())),
        None => None,
    };
    StatusPlan {
        request: StatusRequest { source_mode, provider },
        cache_enabled: config.status.cache_enabled && !input.no_cache,
        ttl_seconds: config.status.cache_ttl_seconds,
        refresh: input.refresh,
    }
}

/// The cached snapshots serve the request: the cache is enabled, no refresh is
/// asked for, and the cached record is fresh at `now`.
pub open spec fn spec_serve_from_cache(plan: StatusPlan, cached: Option<StatusCacheRecord>, now: u64) -> bool {
    plan.cache_enabled && !plan.refresh && (cached matches Some(rec) && spec_is_fresh(
        rec.cached_at_unix,
        now,
        plan.ttl_seconds,
    ))
}

/// The cached snapshots when they serve the request, else `None` (live
/// collection is then needed).
pub fn cached_providers(plan: &StatusPlan, cached: Option<&StatusCacheRecord>, now: u64) -> (r: Option<
    ProviderMap,
>)
    ensures
        r is Some <==> spec_serve_from_cache(
            *plan,
            match cached {
                Some(c) => Some(*c),
                None => None,
            },
            now,
        ),
        r matches Some(m) ==> (cached matches Some(c) && m@ == c.providers@),
{
    if plan.cache_enabled && !plan.refresh {
        match cached {
            Some(rec) => if rec.is_fresh_at(now, plan.ttl_seconds) {
                Some(rec.providers.duplicate())
            } else {
                None
            },
            None => None,
        }
    } else {
        None
    }
}

/// The result of live collection as it is served, with the record to save.
pub struct LiveStatus {
    pub providers: ProviderMap,
    pub save: Option<StatusCacheRecord>,
}

/// The reason given when the cache stands in for a failed collection.
pub open spec fn spec_live_failure_reason(error: Seq<char>) -> Seq<char> {
    "live status collection failed: "@ + error
}

/// Serving the outcome of live collection: a success is served and, with the
/// cache enabled, saved as a record made at `now`; a failure is served from
/// the cached record, every snapshot marked stale, when the cache is enabled
/// and a record exists; otherwise the failure stands.
pub fn finish_live_status(
    plan: &StatusPlan,
    live: Result<ProviderMap, String>,
    cached: Option<StatusCacheRecord>,
    now: u64,
) -> (r: Result<LiveStatus, String>)
    ensures
        live matches Ok(m) ==> (r matches Ok(out) && out.providers@ == m@ && (out.save is Some
            <==> plan.cache_enabled) && (out.save matches Some(rec) ==> rec.source_mode
            == plan.request.source_mode && opt_view(rec.provider_filter) == opt_view(
            plan.request.provider,
        ) && rec.providers@ == m@ && rec.cached_at_unix == now)),
        live matches Err(e) ==> (if plan.cache_enabled && cached is Some {
            r matches Ok(out) && out.save is None && out.providers@ == cached.unwrap().providers@.map_values(
                |s: UsageSnapshotView| spec_stale_snapshot(s, spec_live_failure_reason(e@)),
            )
        } else {
            r matches Err(e2) && e2@ == e@
        }),
{
    match live {
        Ok(m) => {
            let save = if plan.cache_enabled {
                Some(
                    StatusCacheRecord::new_at(
                        plan.request.source_mode,
                        copy_opt_string(&plan.request.provider),
                        m.duplicate(),
                        now,
                    ),
                )
            } else {
                None
            };
            Ok(LiveStatus { providers: m, save })
        },
        Err(e) => {
            if plan.cache_enabled {
                match cached {
                    Some(rec) => {
                        let reason = concat_str("live status collection failed: ", e.as_str());
                        let providers = stale_cached_providers(&rec.providers, reason.as_str());
                        Ok(LiveStatus { providers, save: None })
                    },
                    None => Err(e),
                }
            } else {
                Err(e)
            }
        },
    }
}

// ---------------------------------------------------------------------------
// Small entry points
// ---------------------------------------------------------------------------

/// The resolved configuration path.
pub fn get_config_path(env: &HostEnvironment) -> (r: Result<BackendConfigPathOutput, String>)
    ensures
        r matches Ok(o) && o.config_path@ == spec_config_path(
            opt_view(env.xdg_config_home),
            opt_view(env.home),
        ),
{
    Ok(BackendConfigPathOutput { config_path: config_path(env) })
}

/// The names of the available providers.
pub fn get_provider_names() -> (r: Vec<&'static str>)
    ensures
        r@.map_values(|s: &'static str| s@) == spec_provider_names(),
{
    provider_names()
}

// ---------------------------------------------------------------------------
// Diagnostics
// ---------------------------------------------------------------------------

/// How a `<tool> --version` probe went.
pub enum CliProbe {
    /// The tool ran and exited successfully.
    Succeeded,
    /// The tool ran and exited with the given status.
    Failed(String),
    /// The tool could not be run, for the given reason.
    Unavailable(String),
}

/// What the diagnostics look at besides the configuration and the environment.
pub struct DoctorFacts {
    pub config_exists: bool,
    pub cache_record: Option<StatusCacheRecord>,
    pub now: u64,
    pub codex_cli: CliProbe,
    pub ollama_cli: CliProbe,
}

/// The content of a [`DoctorCheck`].
pub struct DoctorCheckView {
    pub name: Seq<char>,
    pub status: DoctorStatus,
    pub message: Seq<char>,
}

impl View for DoctorCheck {
    type V = DoctorCheckView;

    open spec fn view(&self) -> DoctorCheckView {
        DoctorCheckView { name: self.name@, status: self.status, message: self.message@ }
    }
}

/// The views of a sequence of checks.
pub open spec fn check_views(cs: Seq<DoctorCheck>) -> Seq<DoctorCheckView> {
    cs.map_values(|c: DoctorCheck| c@)
}

/// A component of a Unix path other than the root and `.`: a character that
/// is neither `/` nor `.`, or two dots in a row.
pub open spec fn has_named_component(p: Seq<char>) -> bool {
    exists|i: int| 0 <= i < p.len() && #[trigger] named_at(p, i)
}

/// The character at `i` belongs to a component other than the root and `.`.
pub open spec fn named_at(p: Seq<char>, i: int) -> bool {
    p[i] != '/' && (p[i] != '.' || (i + 1 < p.len() && p[i + 1] == '.'))
}

/// The path starts with the component `.` (`.` alone or followed by `/`).
pub open spec fn starts_with_cur_dir(p: Seq<char>) -> bool {
    p.len() > 0 && p[0] == '.' && (p.len() == 1 || p[1] == '/')
}

/// `Path::parent` on Unix gives a parent exactly when the path's last
/// component is not the root: when it has a component other than the root
/// and `.`, or begins with `.` (a `.` elsewhere is not a component).
pub open spec fn spec_path_has_parent(p: Seq<char>) -> bool {
    has_named_component(p) || starts_with_cur_dir(p)
}

/// Whether a path has a parent.
pub fn path_has_parent(p: &str) -> (r: bool)
    ensures
        r == spec_path_has_parent(p@),
{
    let c = crate::text::chars_of(p);
    let n = c.len();
    if n > 0 && c[0] == '.' && (n == 1 || c[1] == '/') {
        return true;
    }
    let mut i: usize = 0;
    while i < n
        invariant
            i <= c@.len(),
            n == c@.len(),
            c@ == p@,
            forall|j: int| 0 <= j < i ==> !#[trigger] named_at(c@, j),
        decreases c@.len() - i,
    {
        if c[i] != '/' && (c[i] != '.' || (i + 1 < n && c[i + 1] == '.')) {
            assert(named_at(c@, i as int));
            return true;
        }
        i += 1;
    }
    false
}

/// `true` or `false`.
pub open spec fn bool_text(b: bool) -> Seq<char> {
    if b {
        "true"@
    } else {
        "false"@
    }
}

/// The check of the cached record for the selected source.
pub open spec fn spec_cache_state_check(
    record: Option<(SourceMode, u64)>,
    ttl: u64,
    now: u64,
) -> DoctorCheckView {
    match record {
        Some((mode, at)) => if spec_is_fresh(at, now, ttl) {
            DoctorCheckView {
                name: "cache_state"@,
                status: DoctorStatus::Okay,
                message: "fresh cache available for source="@ + mode.spec_name() + " (cached_at_unix="@
                    + decimal(at as nat) + ")"@,
            }
        } else {
            DoctorCheckView {
                name: "cache_state"@,
                status: DoctorStatus::Warning,
                message: "stale cache available for source="@ + mode.spec_name() + " (cached_at_unix="@
                    + decimal(at as nat) + ")"@,
            }
        },
        None => DoctorCheckView {
            name: "cache_state"@,
            status: DoctorStatus::Warning,
            message: "no cache file found for the selected source"@,
        },
    }
}

/// The source and time of an optional record.
pub open spec fn record_key(r: Option<StatusCacheRecord>) -> Option<(SourceMode, u64)> {
    match r {
        Some(rec) => Some((rec.source_mode, rec.cached_at_unix)),
        None => None,
    }
}

/// The check of the cached record: fresh, stale or absent.
pub fn build_cache_state_check(record: Option<&StatusCacheRecord>, ttl_seconds: u64, now: u64) -> (r:
    DoctorCheck)
    ensures
        r@ == spec_cache_state_check(
            match record {
                Some(x) => Some((x.source_mode, x.cached_at_unix)),
                None => None,
            },
            ttl_seconds,
            now,
        ),
{
    match record {
        Some(rec) => {
            let head = if rec.is_fresh_at(now, ttl_seconds) {
                "fresh cache available for source="
            } else {
                "stale cache available for source="
            };
            let at = u64_to_string(rec.cached_at_unix);
            let a = concat3(head, rec.source_mode.as_str(), " (cached_at_unix=");
            let message = concat3(a.as_str(), at.as_str(), ")");
            let status = if rec.is_fresh_at(now, ttl_seconds) {
                DoctorStatus::Okay
            } else {
                DoctorStatus::Warning
            };
            DoctorCheck { name: String::from_str("cache_state"), status, message }
        },
        None => DoctorCheck {
            name: String::from_str("cache_state"),
            status: DoctorStatus::Warning,
            message: String::from_str("no cache file found for the selected source"),
        },
    }
}

/// The view of a CLI probe: `None` for success, else whether it ran and the text.
pub open spec fn probe_view(p: CliProbe) -> Option<(bool, Seq<char>)> {
    match p {
        CliProbe::Succeeded => None,
        CliProbe::Failed(s) => Some((true, s@)),
        CliProbe::Unavailable(e) => Some((false, e@)),
    }
}

/// The check of a CLI tool's `--version` probe.
pub open spec fn spec_cli_check(tool: Seq<char>, probe: Option<(bool, Seq<char>)>) -> DoctorCheckView {
    match probe {
        None => DoctorCheckView {
            name: tool + "_cli"@,
            status: DoctorStatus::Okay,
            message: tool + " CLI detected"@,
        },
        Some((true, s)) => DoctorCheckView {
            name: tool + "_cli"@,
            status: DoctorStatus::Warning,
            message: tool + " CLI returned non-zero status: "@ + s,
        },
        Some((false, e)) => DoctorCheckView {
            name: tool + "_cli"@,
            status: DoctorStatus::Warning,
            message: tool + " CLI not available: "@ + e,
        },
    }
}

/// The check of a CLI tool (`codex` or `ollama`).
pub fn build_cli_check(tool: &str, probe: &CliProbe) -> (r: DoctorCheck)
    ensures
        r@ == spec_cli_check(tool@, probe_view(*probe)),
{
    let name = concat_str(tool, "_cli");
    match probe {
        CliProbe::Succeeded => DoctorCheck {
            name,
            status: DoctorStatus::Okay,
            message: concat_str(tool, " CLI detected"),
        },
        CliProbe::Failed(s) => {
            let a = concat_str(tool, " CLI returned non-zero status: ");
            DoctorCheck { name, status: DoctorStatus::Warning, message: concat_str(a.as_str(), s.as_str()) }
        },
        CliProbe::Unavailable(e) => {
            let a = concat_str(tool, " CLI not available: ");
            DoctorCheck { name, status: DoctorStatus::Warning, message: concat_str(a.as_str(), e.as_str()) }
        },
    }
}

/// A variable is set and not blank.
pub open spec fn present(v: Option<Seq<char>>) -> bool {
    v matches Some(x) && trim(x).len() > 0
}

/// The check of the OpenAI credentials.
pub open spec fn spec_openai_check(admin: Option<Seq<char>>, api: Option<Seq<char>>) -> DoctorCheckView {
    DoctorCheckView {
        name: "openai_credentials"@,
        status: if present(admin) || present(api) {
            DoctorStatus::Okay
        } else {
            DoctorStatus::Warning
        },
        message: if present(admin) {
            "OPENAI_ADMIN_KEY is set"@
        } else if present(api) {
            "OPENAI_API_KEY is set; organization usage endpoints may still require an admin-scoped key"@
        } else {
            "OPENAI_ADMIN_KEY or OPENAI_API_KEY is not set"@
        },
    }
}

fn is_present(v: &Option<String>) -> (r: bool)
    ensures
        r == present(opt_view(*v)),
{
    match v {
        Some(x) => trim_string(x.as_str()).unicode_len() > 0,
        None => false,
    }
}

/// The check of the OpenAI credentials in the environment.
pub fn build_openai_api_key_check(env: &HostEnvironment) -> (r: DoctorCheck)
    ensures
        r@ == spec_openai_check(opt_view(env.openai_admin_key), opt_view(env.openai_api_key)),
{
    let admin = is_present(&env.openai_admin_key);
    let api = is_present(&env.openai_api_key);
    let status = if admin || api {
        DoctorStatus::Okay
    } else {
        DoctorStatus::Warning
    };
    let message = if admin {
        String::from_str("OPENAI_ADMIN_KEY is set")
    } else if api {
        String::from_str(
            "OPENAI_API_KEY is set; organization usage endpoints may still require an admin-scoped key",
        )
    } else {
        String::from_str("OPENAI_ADMIN_KEY or OPENAI_API_KEY is not set")
    };
    DoctorCheck { name: String::from_str("openai_credentials"), status, message }
}

/// The number of checks among the first `n` with the given status.
pub open spec fn count_status(cs: Seq<DoctorCheckView>, st: DoctorStatus, n: int) -> nat
    decreases n,
{
    if n <= 0 || n > cs.len() {
        0
    } else {
        count_status(cs, st, n - 1) + if cs[n - 1].status == st {
            1nat
        } else {
            0nat
        }
    }
}

proof fn lemma_counts_add_up(cs: Seq<DoctorCheckView>, n: int)
    requires
        0 <= n <= cs.len(),
    ensures
        count_status(cs, DoctorStatus::Okay, n) + count_status(cs, DoctorStatus::Warning, n) == n,
    decreases n,
{
    if n > 0 {
        lemma_counts_add_up(cs, n - 1);
    }
}

/// Counts the checks by status; no check ends in an error.
pub fn summarize_checks(checks: &Vec<DoctorCheck>) -> (r: DoctorSummary)
    ensures
        r.ok == count_status(check_views(checks@), DoctorStatus::Okay, checks@.len() as int),
        r.warning == count_status(check_views(checks@), DoctorStatus::Warning, checks@.len() as int),
        r.error == 0,
        r.ok + r.warning == checks@.len(),
{
    let ghost cs = check_views(checks@);
    let mut ok: usize = 0;
    let mut warning: usize = 0;
    let mut i: usize = 0;
    while i < checks.len()
        invariant
            cs == check_views(checks@),
            i <= checks@.len(),
            ok == count_status(cs, DoctorStatus::Okay, i as int),
            warning == count_status(cs, DoctorStatus::Warning, i as int),
            ok + warning == i,
        decreases checks@.len() - i,
    {
        proof {
            lemma_counts_add_up(cs, i as int);
        }
        assert(cs[i as int].status == checks@[i as int].status);
        match checks[i].status {
            DoctorStatus::Okay => {
                ok += 1;
            },
            DoctorStatus::Warning => {
                warning += 1;
            },
        }
        i += 1;
    }
    DoctorSummary { ok, warning, error: 0 }
}

/// The checks of the diagnostics report, in order.
pub open spec fn spec_doctor_checks(
    mode: SourceMode,
    config: AppConfig,
    config_path: Seq<char>,
    config_exists: bool,
    cache_path: Seq<char>,
    record: Option<(SourceMode, u64)>,
    now: u64,
    codex: Option<(bool, Seq<char>)>,
    ollama: Option<(bool, Seq<char>)>,
    admin: Option<Seq<char>>,
    api: Option<Seq<char>>,
) -> Seq<DoctorCheckView> {
    let base = seq![
        DoctorCheckView {
            name: "config_path"@,
            status: if config_exists {
                DoctorStatus::Okay
            } else {
                DoctorStatus::Warning
            },
            message: config_path + " ("@ + (if config_exists {
                "exists"@
            } else {
                "missing, defaults in use"@
            }) + ")"@,
        },
        DoctorCheckView {
            name: "cache_path"@,
            status: if spec_path_has_parent(cache_path) {
                DoctorStatus::Okay
            } else {
                DoctorStatus::Warning
            },
            message: cache_path,
        },
        DoctorCheckView {
            name: "cache_policy"@,
            status: DoctorStatus::Okay,
            message: "enabled="@ + bool_text(config.status.cache_enabled) + ", ttl="@ + decimal(
                config.status.cache_ttl_seconds as nat,
            ) + "s, default_source="@ + config.status.default_source.spec_name(),
        },
        spec_cache_state_check(record, config.status.cache_ttl_seconds, now),
        spec_cli_check("codex"@, codex),
        spec_cli_check("ollama"@, ollama),
        spec_openai_check(admin, api),
        DoctorCheckView {
            name: "provider_capabilities"@,
            status: DoctorStatus::Okay,
            message: "codex=cli, mock=local, ollama=api+cli, openai=api"@,
        },
    ];
    if mode == SourceMode::Cli {
        base + seq![
            DoctorCheckView {
                name: "openai_cli_support"@,
                status: DoctorStatus::Warning,
                message: "openai --source cli is not implemented; only API-backed status is supported"@,
            },
            DoctorCheckView {
                name: "codex_api_support"@,
                status: DoctorStatus::Warning,
                message: "codex --source api is not implemented; only CLI-backed status is supported"@,
            },
        ]
    } else {
        base
    }
}

/// The checks of the report for the given source, configuration, environment and facts.
pub open spec fn spec_report_checks(
    mode: SourceMode,
    config: AppConfig,
    env: HostEnvironment,
    facts: DoctorFacts,
) -> Seq<DoctorCheckView> {
    spec_doctor_checks(
        mode,
        config,
        spec_config_path(opt_view(env.xdg_config_home), opt_view(env.home)),
        facts.config_exists,
        spec_cache_path(opt_view(env.xdg_cache_home), opt_view(env.home), mode, None),
        record_key(facts.cache_record),
        facts.now,
        probe_view(facts.codex_cli),
        probe_view(facts.ollama_cli),
        opt_view(env.openai_admin_key),
        opt_view(env.openai_api_key),
    )
}

fn push_check(checks: &mut Vec<DoctorCheck>, c: DoctorCheck)
    ensures
        check_views(final(checks)@) == check_views(old(checks)@).push(c@),
{
    let ghost before = check_views(checks@);
    checks.push(c);
    assert(check_views(checks@) =~= before.push(c@));
}

/// The diagnostics report for a source mode.
pub fn build_doctor_report(
    source_mode: SourceMode,
    config: &AppConfig,
    env: &HostEnvironment,
    facts: &DoctorFacts,
) -> (r: BackendDoctorOutput)
    ensures
        r.source_mode == source_mode,
        check_views(r.checks@) == spec_report_checks(source_mode, *config, *env, *facts),
        r.summary.ok + r.summary.warning == r.checks@.len(),
        r.summary.error == 0,
        r.summary.ok == count_status(
            check_views(r.checks@),
            DoctorStatus::Okay,
            r.checks@.len() as int,
        ),
{
    let cache_path = cache_path_for(source_mode, None, env);
    let config_path = config_path(env);
    let mut checks: Vec<DoctorCheck> = Vec::new();
    let tail = if facts.config_exists {
        "exists"
    } else {
        "missing, defaults in use"
    };
    let a = concat3(config_path.as_str(), " (", tail);
    push_check(
        &mut checks,
        DoctorCheck {
            name: String::from_str("config_path"),
            status: if facts.config_exists {
                DoctorStatus::Okay
            } else {
                DoctorStatus::Warning
            },
            message: concat_str(a.as_str(), ")"),
        },
    );
    let has_parent = path_has_parent(cache_path.as_str());
    push_check(
        &mut checks,
        DoctorCheck {
            name: String::from_str("cache_path"),
            status: if has_parent {
                DoctorStatus::Okay
            } else {
                DoctorStatus::Warning
            },
            message: cache_path,
        },
    );
    let enabled = if config.status.cache_enabled {
        "true"
    } else {
        "false"
    };
    let ttl = u64_to_string(config.status.cache_ttl_seconds);
    let p1 = concat3("enabled=", enabled, ", ttl=");
    let p2 = concat3(p1.as_str(), ttl.as_str(), "s, default_source=");
    push_check(
        &mut checks,
        DoctorCheck {
            name: String::from_str("cache_policy"),
            status: DoctorStatus::Okay,
            message: concat_str(p2.as_str(), config.status.default_source.as_str()),
        },
    );
    push_check(
        &mut checks,
        build_cache_state_check(facts.cache_record.as_ref(), config.status.cache_ttl_seconds, facts.now),
    );
    push_check(&mut checks, build_cli_check("codex", &facts.codex_cli));
    push_check(&mut checks, build_cli_check("ollama", &facts.ollama_cli));
    push_check(&mut checks, build_openai_api_key_check(env));
    push_check(
        &mut checks,
        DoctorCheck {
            name: String::from_str("provider_capabilities"),
            status: DoctorStatus::Okay,
            message: String::from_str("codex=cli, mock=local, ollama=api+cli, openai=api"),
        },
    );
    if source_mode == SourceMode::Cli {
        push_check(
            &mut checks,
            DoctorCheck {
                name: String::from_str("openai_cli_support"),
                status: DoctorStatus::Warning,
                message: String::from_str(
                    "openai --source cli is not implemented; only API-backed status is supported",
                ),
            },
        );
        push_check(
            &mut checks,
            DoctorCheck {
                name: String::from_str("codex_api_support"),
                status: DoctorStatus::Warning,
                message: String::from_str(
                    "codex --source api is not implemented; only CLI-backed status is supported",
                ),
            },
        );
    }
    assert(check_views(checks@) =~= spec_report_checks(source_mode, *config, *env, *facts));
    let summary = summarize_checks(&checks);
    BackendDoctorOutput { source_mode, summary, checks }
}

/// The diagnostics report: for the requested source, else the configured default.
pub fn get_doctor(
    input: BackendDoctorInput,
    config: &AppConfig,
    env: &HostEnvironment,
    facts: &DoctorFacts,
) -> (r: Result<BackendDoctorOutput, String>)
    ensures
        r matches Ok(o) && o.source_mode == (match input.source {
            Some(s) => s,
            None => config.status.default_source,
        }) && check_views(o.checks@) == spec_report_checks(o.source_mode, *config, *env, *facts)
            && o.summary.ok == count_status(
            check_views(o.checks@),
            DoctorStatus::Okay,
            o.checks@.len() as int,
        ) && o.summary.ok + o.summary.warning == o.checks@.len() && o.summary.error == 0,
{
    let source_mode = match input.source {
        Some(s) => s,
        None => config.status.default_source,
    };
    Ok(build_doctor_report(source_mode, config, env, facts))
}


/// A fresh cached record serves the request when the cache is enabled and no
/// refresh is asked for.
pub proof fn law_fresh_cache_is_served(plan: StatusPlan, record: StatusCacheRecord, now: u64)
    requires
        plan.cache_enabled,
        !plan.refresh,
        spec_is_fresh(record.cached_at_unix, now, plan.ttl_seconds),
    ensures
        spec_serve_from_cache(plan, Some(record), now),
{
}

/// A refresh always goes to live collection.
pub proof fn law_refresh_forces_live_collection(
    plan: StatusPlan,
    cached: Option<StatusCacheRecord>,
    now: u64,
)
    requires
        plan.refresh,
    ensures
        !spec_serve_from_cache(plan, cached, now),
{
}

/// With the cache disabled (by `--no-cache` or by the configuration) no
/// cached record is served, whatever is cached.
pub proof fn law_disabled_cache_is_never_read(
    plan: StatusPlan,
    cached: Option<StatusCacheRecord>,
    now: u64,
)
    requires
        !plan.cache_enabled,
    ensures
        !spec_serve_from_cache(plan, cached, now),
{
}

/// A record saved for a request at time `saved_at` is read back by the same
/// request: it lies in the cache file of the request's source mode and
/// provider filter, and until `ttl` seconds have passed it is served (when the
/// cache is enabled and no refresh is asked for).
pub proof fn law_saved_record_is_found_by_same_request(
    plan: StatusPlan,
    record: StatusCacheRecord,
    saved_at: u64,
    now: u64,
    xdg_cache_home: Option<Seq<char>>,
    home: Option<Seq<char>>,
)
    requires
        record.source_mode == plan.request.source_mode,
        opt_view(record.provider_filter) == opt_view(plan.request.provider),
        record.cached_at_unix == saved_at,
        now <= saved_at + plan.ttl_seconds,
    ensures
        spec_cache_path(xdg_cache_home, home, record.source_mode, opt_view(record.provider_filter))
            == spec_cache_path(
            xdg_cache_home,
            home,
            plan.request.source_mode,
            opt_view(plan.request.provider),
        ),
        plan.cache_enabled && !plan.refresh ==> spec_serve_from_cache(plan, Some(record), now),
{
}

/// The diagnostics and the OpenAI provider agree on the credentials: the
/// check passes exactly when the provider has a key to use, and that key is
/// the admin key when the admin key is set and not blank, else the API key.
pub proof fn law_openai_check_agrees_with_key(admin: Option<Seq<char>>, api: Option<Seq<char>>)
    ensures
        (spec_openai_check(admin, api).status == DoctorStatus::Okay) <==> spec_api_key(admin, api) is Some,
        present(admin) ==> spec_api_key(admin, api) == usable(admin),
        !present(admin) ==> spec_api_key(admin, api) == usable(api),
{
}

/// The checks of the diagnostics report always end in `ok` or `warning`, and
/// the report warns about the unsupported strategies exactly for the CLI source.
pub proof fn law_doctor_report_shape(
    mode: SourceMode,
    config: AppConfig,
    env: HostEnvironment,
    facts: DoctorFacts,
)
    ensures
        spec_report_checks(mode, config, env, facts).len() == (if mode == SourceMode::Cli {
            10int
        } else {
            8int
        }),
        count_status(
            spec_report_checks(mode, config, env, facts),
            DoctorStatus::Okay,
            spec_report_checks(mode, config, env, facts).len() as int,
        ) + count_status(
            spec_report_checks(mode, config, env, facts),
            DoctorStatus::Warning,
            spec_report_checks(mode, config, env, facts).len() as int,
        ) == spec_report_checks(mode, config, env, facts).len(),
{
    let cs = spec_report_checks(mode, config, env, facts);
    lemma_counts_add_up(cs, cs.len() as int);
}

} // verus!
