use codexbar_rs::backend::{
    build_doctor_report, build_openai_api_key_check, cached_providers, finish_live_status, get_config_path, get_doctor,
    get_provider_names, path_has_parent, plan_status, summarize_checks, BackendDoctorInput,
    BackendStatusInput, CliProbe, DoctorCheck, DoctorFacts, DoctorStatus,
};
use codexbar_rs::cache::{cache_path_for, StatusCacheRecord};
use codexbar_rs::config::{AppConfig, StatusConfig};
use codexbar_rs::env::HostEnvironment;
use codexbar_rs::providers::{OpenAiProvider, ProviderConfig};
use codexbar_rs::status_map::ProviderMap;
use codexbar_rs::usage::{FetchSource, ProviderHealth, SourceMode, UsageSnapshot, UsageWindow};

fn config(enabled: bool) -> AppConfig {
    AppConfig { status: StatusConfig { default_source: SourceMode::Api, cache_ttl_seconds: 30, cache_enabled: enabled } }
}

fn providers() -> ProviderMap {
    let mut m = ProviderMap::new();
    m.insert(
        "mock".to_string(),
        UsageSnapshot::new("mock", UsageWindow::new(Some(5), Some(100)), FetchSource::Mock, ProviderHealth::Okay),
    );
    m
}

fn input(refresh: bool, no_cache: bool) -> BackendStatusInput {
    BackendStatusInput { source: None, provider: Some("OLLAMA".to_string()), refresh, no_cache }
}

#[test]
fn plan_takes_defaults_and_lowercases() {
    let plan = plan_status(&input(false, false), &config(true));
    assert_eq!(plan.request.source_mode, SourceMode::Api);
    assert_eq!(plan.request.provider.as_deref(), Some("ollama"));
    assert!(plan.cache_enabled);
    assert_eq!(plan.ttl_seconds, 30);
    let plan = plan_status(&input(false, true), &config(true));
    assert!(!plan.cache_enabled);
}

#[test]
fn fresh_cache_is_served_unless_refreshing_or_disabled() {
    let record = StatusCacheRecord::new_at(SourceMode::Api, None, providers(), 100);
    let plan = plan_status(&input(false, false), &config(true));
    assert!(cached_providers(&plan, Some(&record), 120).is_some());
    assert!(cached_providers(&plan, Some(&record), 131).is_none());
    assert!(cached_providers(&plan, None, 120).is_none());
    let refresh = plan_status(&input(true, false), &config(true));
    assert!(cached_providers(&refresh, Some(&record), 120).is_none());
    let disabled = plan_status(&input(false, true), &config(true));
    assert!(cached_providers(&disabled, Some(&record), 120).is_none());
    let off = plan_status(&input(false, false), &config(false));
    assert!(cached_providers(&off, Some(&record), 120).is_none());
}

#[test]
fn live_success_is_saved_when_caching() {
    let plan = plan_status(&input(false, false), &config(true));
    let out = finish_live_status(&plan, Ok(providers()), None, 77).ok().unwrap();
    let save = out.save.unwrap();
    assert_eq!(save.cached_at_unix, 77);
    assert_eq!(save.provider_filter.as_deref(), Some("ollama"));
    assert_eq!(save.source_mode, SourceMode::Api);
    assert!(save.providers.get("mock").is_some());
    let off = plan_status(&input(false, true), &config(true));
    assert!(finish_live_status(&off, Ok(providers()), None, 77).ok().unwrap().save.is_none());
}

#[test]
fn saved_record_is_served_back_to_the_same_request() {
    let plan = plan_status(&input(false, false), &config(true));
    let saved = finish_live_status(&plan, Ok(providers()), None, 500).ok().unwrap().save.unwrap();
    let served = cached_providers(&plan, Some(&saved), 530).unwrap();
    assert!(served.get("mock").is_some());
    assert!(cached_providers(&plan, Some(&saved), 531).is_none());
    let env = HostEnvironment::unset();
    assert_eq!(
        cache_path_for(saved.source_mode, saved.provider_filter.as_deref(), &env),
        cache_path_for(plan.request.source_mode, plan.request.provider.as_deref(), &env)
    );
}

#[test]
fn live_failure_falls_back_to_stale_cache() {
    let plan = plan_status(&input(false, false), &config(true));
    let record = StatusCacheRecord::new_at(SourceMode::Api, None, providers(), 1);
    let out = finish_live_status(&plan, Err("network down".to_string()), Some(record), 500).ok().unwrap();
    assert!(out.save.is_none());
    let mock = out.providers.get("mock").unwrap();
    assert!(mock.stale);
    assert_eq!(
        mock.error.as_deref(),
        Some("fallback cache used: live status collection failed: network down")
    );
    let err = finish_live_status(&plan, Err("network down".to_string()), None, 500).err().unwrap();
    assert_eq!(err, "network down");
    let off = plan_status(&input(false, true), &config(true));
    let record = StatusCacheRecord::new_at(SourceMode::Api, None, providers(), 1);
    assert!(finish_live_status(&off, Err("x".to_string()), Some(record), 500).is_err());
}

fn facts(cli: bool) -> DoctorFacts {
    DoctorFacts {
        config_exists: cli,
        cache_record: None,
        now: 1000,
        codex_cli: CliProbe::Succeeded,
        ollama_cli: if cli { CliProbe::Failed("exit status: 2".to_string()) } else { CliProbe::Unavailable("not found".to_string()) },
    }
}

#[test]
fn doctor_report_for_auto() {
    let mut env = HostEnvironment::unset();
    env.home = Some("/home/u".to_string());
    env.openai_api_key = Some("sk".to_string());
    let r = build_doctor_report(SourceMode::Auto, &config(true), &env, &facts(false));
    let names: Vec<&str> = r.checks.iter().map(|c| c.name.as_str()).collect();
    assert_eq!(
        names,
        vec!["config_path", "cache_path", "cache_policy", "cache_state", "codex_cli", "ollama_cli", "openai_credentials", "provider_capabilities"]
    );
    assert_eq!(r.checks[0].message, "/home/u/.config/codexbar/config.json (missing, defaults in use)");
    assert_eq!(r.checks[0].status, DoctorStatus::Warning);
    assert_eq!(r.checks[1].message, "/home/u/.cache/codexbar/status-cache-auto.json");
    assert_eq!(r.checks[2].message, "enabled=true, ttl=30s, default_source=api");
    assert_eq!(r.checks[3].message, "no cache file found for the selected source");
    assert_eq!(r.checks[4].message, "codex CLI detected");
    assert_eq!(r.checks[5].message, "ollama CLI not available: not found");
    assert_eq!(r.checks[6].status, DoctorStatus::Okay);
    assert_eq!(
        r.checks[6].message,
        "OPENAI_API_KEY is set; organization usage endpoints may still require an admin-scoped key"
    );
    assert_eq!(r.summary.ok + r.summary.warning, 8);
    assert_eq!(r.summary.error, 0);
    assert_eq!(r.summary.warning, 3);
}

#[test]
fn doctor_and_provider_agree_on_openai_key() {
    let mut env = HostEnvironment::unset();
    env.openai_admin_key = Some("   ".to_string());
    env.openai_api_key = Some("sk-test".to_string());
    let check = build_openai_api_key_check(&env);
    assert_eq!(check.status, DoctorStatus::Okay);
    let p = OpenAiProvider::new(ProviderConfig::default(), &env);
    assert_eq!(p.api_key.as_deref(), Some("sk-test"));
    env.openai_api_key = None;
    let check = build_openai_api_key_check(&env);
    assert_eq!(check.status, DoctorStatus::Warning);
    assert!(OpenAiProvider::new(ProviderConfig::default(), &env).api_key.is_none());
}

#[test]
fn doctor_report_for_cli_adds_warnings() {
    let mut f = facts(true);
    f.cache_record = Some(StatusCacheRecord::new_at(SourceMode::Cli, None, ProviderMap::new(), 990));
    let r = build_doctor_report(SourceMode::Cli, &config(false), &HostEnvironment::unset(), &f);
    assert_eq!(r.checks.len(), 10);
    assert_eq!(r.checks[0].message, "config.json (exists)");
    assert_eq!(r.checks[3].message, "fresh cache available for source=cli (cached_at_unix=990)");
    assert_eq!(r.checks[5].message, "ollama CLI returned non-zero status: exit status: 2");
    assert_eq!(r.checks[6].message, "OPENAI_ADMIN_KEY or OPENAI_API_KEY is not set");
    assert_eq!(r.checks[8].name, "openai_cli_support");
    assert_eq!(r.checks[9].name, "codex_api_support");
    assert_eq!(r.summary.ok + r.summary.warning, 10);
    let doctor = get_doctor(BackendDoctorInput { source: None }, &config(true), &HostEnvironment::unset(), &facts(false)).ok().unwrap();
    assert_eq!(doctor.source_mode, SourceMode::Api);
}

#[test]
fn doctor_stale_cache_is_a_warning() {
    let mut f = facts(true);
    f.cache_record = Some(StatusCacheRecord::new_at(SourceMode::Auto, None, ProviderMap::new(), 10));
    let r = build_doctor_report(SourceMode::Auto, &config(true), &HostEnvironment::unset(), &f);
    assert_eq!(r.checks[3].status, DoctorStatus::Warning);
    assert_eq!(r.checks[3].message, "stale cache available for source=auto (cached_at_unix=10)");
}

#[test]
fn summary_counts_statuses() {
    let c = |s| DoctorCheck { name: String::new(), status: s, message: String::new() };
    let s = summarize_checks(&vec![c(DoctorStatus::Okay), c(DoctorStatus::Warning), c(DoctorStatus::Okay)]);
    assert_eq!((s.ok, s.warning, s.error), (2, 1, 0));
}

#[test]
fn small_entry_points() {
    assert_eq!(get_provider_names(), vec!["mock", "codex", "ollama", "openai"]);
    assert_eq!(get_config_path(&HostEnvironment::unset()).ok().unwrap().config_path, "config.json");
    assert!(path_has_parent("a.json"));
    assert!(!path_has_parent("/"));
    assert!(!path_has_parent(""));
    assert!(!path_has_parent("/."));
    assert!(!path_has_parent("//./"));
    assert!(path_has_parent("."));
    assert!(path_has_parent("./"));
    assert!(path_has_parent(".."));
    assert!(path_has_parent("/.."));
    assert!(path_has_parent("/a"));
    for p in ["", "/", "/.", "//./", ".", "./", "..", "/..", "/a", "a/.", "/./.", "..."] {
        assert_eq!(path_has_parent(p), std::path::Path::new(p).parent().is_some(), "{p}");
    }
}
