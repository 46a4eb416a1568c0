use codexbar_rs::status_map::ProviderMap;
use codexbar_rs::usage::{FetchSource, ProviderHealth, SourceMode, UsageSnapshot, UsageWindow};

#[test]
fn source_mode_names() {
    assert_eq!(SourceMode::Auto.as_str(), "auto");
    assert_eq!(SourceMode::Api.as_str(), "api");
    assert_eq!(SourceMode::Cli.as_str(), "cli");
    assert_eq!(SourceMode::default(), SourceMode::Auto);
}

#[test]
fn usage_window_remaining_is_limit_minus_used() {
    let w = UsageWindow::new(Some(30), Some(100));
    assert_eq!(w.remaining, Some(70));
    assert_eq!(w.resets_at, None);
}

#[test]
fn usage_window_remaining_needs_both_figures_and_room() {
    assert_eq!(UsageWindow::new(Some(120), Some(100)).remaining, None);
    assert_eq!(UsageWindow::new(None, Some(100)).remaining, None);
    assert_eq!(UsageWindow::new(Some(3), None).remaining, None);
    assert_eq!(UsageWindow::new(Some(100), Some(100)).remaining, Some(0));
}

#[test]
fn usage_snapshot_new_sets_only_the_basics() {
    let s = UsageSnapshot::new(
        "mock",
        UsageWindow::new(Some(5), Some(100)),
        FetchSource::Mock,
        ProviderHealth::Okay,
    );
    assert_eq!(s.provider, "mock");
    assert_eq!(s.primary.used, Some(5));
    assert!(s.secondary.is_none());
    assert!(!s.stale);
    assert!(s.error.is_none());
    assert!(s.account.is_none() && s.plan.is_none() && s.auth_mode.is_none());
    assert_eq!(s.source, FetchSource::Mock);
    assert_eq!(s.health, ProviderHealth::Okay);
}

fn snapshot(name: &str, used: u64) -> UsageSnapshot {
    UsageSnapshot::new(
        name,
        UsageWindow::new(Some(used), Some(100)),
        FetchSource::Api,
        ProviderHealth::Okay,
    )
}

#[test]
fn provider_map_read_after_write() {
    let mut m = ProviderMap::new();
    assert!(m.get("codex").is_none());
    m.insert("codex".to_string(), snapshot("codex", 1));
    m.insert("mock".to_string(), snapshot("mock", 2));
    assert_eq!(m.get("codex").unwrap().primary.used, Some(1));
    assert_eq!(m.get("mock").unwrap().primary.used, Some(2));
    m.insert("codex".to_string(), snapshot("codex", 9));
    assert_eq!(m.get("codex").unwrap().primary.used, Some(9));
    assert_eq!(m.entries().len(), 2);
    let copy = m.duplicate();
    assert_eq!(copy.get("mock").unwrap().primary.used, Some(2));
}
