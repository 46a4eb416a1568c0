use codexbar_rs::cache::{cache_file_name, cache_path_for, stale_cached_providers, StatusCacheRecord};
use codexbar_rs::config::{config_path, load_config, AppConfig, StatusConfig};
use codexbar_rs::env::{join_path, HostEnvironment};
use codexbar_rs::status_map::ProviderMap;
use codexbar_rs::usage::{FetchSource, ProviderHealth, SourceMode, UsageSnapshot, UsageWindow};

fn snapshot(name: &str) -> UsageSnapshot {
    UsageSnapshot::new(
        name,
        UsageWindow::new(Some(1), Some(10)),
        FetchSource::Cli,
        ProviderHealth::Okay,
    )
}

#[test]
fn cache_file_names_per_source_and_provider() {
    assert_eq!(cache_file_name(SourceMode::Auto, None), "status-cache-auto.json");
    assert_eq!(cache_file_name(SourceMode::Api, None), "status-cache-api.json");
    assert_eq!(cache_file_name(SourceMode::Cli, None), "status-cache-cli.json");
    assert_eq!(cache_file_name(SourceMode::Cli, Some("ollama")), "status-cache-cli-ollama.json");
}

#[test]
fn cache_path_follows_xdg_then_home() {
    let mut env = HostEnvironment::unset();
    assert_eq!(cache_path_for(SourceMode::Auto, None, &env), "status-cache-auto.json");
    env.home = Some("/home/u".to_string());
    assert_eq!(
        cache_path_for(SourceMode::Auto, None, &env),
        "/home/u/.cache/codexbar/status-cache-auto.json"
    );
    env.xdg_cache_home = Some("/tmp/cache/".to_string());
    assert_eq!(
        cache_path_for(SourceMode::Api, Some("codex"), &env),
        "/tmp/cache/codexbar/status-cache-api-codex.json"
    );
}

#[test]
fn config_path_follows_xdg_then_home() {
    let mut env = HostEnvironment::unset();
    assert_eq!(config_path(&env), "config.json");
    env.home = Some("/home/u".to_string());
    assert_eq!(config_path(&env), "/home/u/.config/codexbar/config.json");
    env.xdg_config_home = Some("/etc/xdg".to_string());
    assert_eq!(config_path(&env), "/etc/xdg/codexbar/config.json");
}

#[test]
fn join_path_adds_one_separator() {
    assert_eq!(join_path("a", "b"), "a/b");
    assert_eq!(join_path("a/", "b"), "a/b");
    assert_eq!(join_path("", "b"), "b");
}

#[test]
fn missing_or_invalid_config_falls_back_to_defaults() {
    let c = load_config(None);
    assert_eq!(c.status.default_source, SourceMode::Auto);
    assert_eq!(c.status.cache_ttl_seconds, 30);
    assert!(c.status.cache_enabled);
    let custom = AppConfig {
        status: StatusConfig { default_source: SourceMode::Cli, cache_ttl_seconds: 5, cache_enabled: false },
    };
    assert_eq!(load_config(Some(custom)), custom);
    assert_eq!(AppConfig::default().status, StatusConfig::default());
}

#[test]
fn freshness_uses_saturating_age() {
    let r = StatusCacheRecord::new_at(SourceMode::Auto, None, ProviderMap::new(), 1000);
    assert!(r.is_fresh_at(1030, 30));
    assert!(!r.is_fresh_at(1031, 30));
    assert!(r.is_fresh_at(10, 0));
    assert!(r.is_fresh(u64::MAX));
}

#[test]
fn freshness_by_the_clock() {
    let just_saved = StatusCacheRecord::new(SourceMode::Auto, None, ProviderMap::new());
    assert!(just_saved.is_fresh(30));
    let ancient = StatusCacheRecord::new_at(SourceMode::Auto, None, ProviderMap::new(), 0);
    assert!(!ancient.is_fresh(30));
    let far_future = StatusCacheRecord::new_at(SourceMode::Auto, None, ProviderMap::new(), u64::MAX);
    assert!(far_future.is_fresh(0));
}

#[test]
fn new_record_keeps_its_fields() {
    let mut m = ProviderMap::new();
    m.insert("mock".to_string(), snapshot("mock"));
    let r = StatusCacheRecord::new(SourceMode::Api, Some("mock".to_string()), m);
    assert_eq!(r.source_mode, SourceMode::Api);
    assert_eq!(r.provider_filter.as_deref(), Some("mock"));
    assert!(r.providers.get("mock").is_some());
}

#[test]
fn stale_fallback_marks_and_explains() {
    let mut m = ProviderMap::new();
    m.insert("mock".to_string(), snapshot("mock"));
    let mut errored = snapshot("openai");
    errored.error = Some("boom".to_string());
    m.insert("openai".to_string(), errored);
    let out = stale_cached_providers(&m, "offline");
    let mock = out.get("mock").unwrap();
    assert!(mock.stale);
    assert_eq!(mock.error.as_deref(), Some("fallback cache used: offline"));
    let openai = out.get("openai").unwrap();
    assert!(openai.stale);
    assert_eq!(openai.error.as_deref(), Some("boom; fallback cache used: offline"));
    assert_eq!(out.entries().len(), 2);
}
