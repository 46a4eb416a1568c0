use codexbar_rs::env::HostEnvironment;
use codexbar_rs::providers::mock::count_words;
use codexbar_rs::providers::ollama::{count_listed_models, OllamaCliOutcome, OllamaUsageInfo};
use codexbar_rs::providers::openai::{
    select_latest_bucket, OpenAiStatusPlan, OpenAiUsageBucket, OpenAiUsageResult,
};
use codexbar_rs::providers::{
    create_provider, normalize_provider_name, provider_names, status_provider_names, MockProvider,
    OllamaProvider, OpenAiProvider, Provider, ProviderConfig, ProviderInstance, ProviderRequest,
};
use codexbar_rs::usage::{FetchSource, ProviderHealth, SourceMode, StatusRequest};

#[test]
fn provider_names_lists_all_providers() {
    assert_eq!(provider_names(), vec!["mock", "codex", "ollama", "openai"]);
}

#[test]
fn create_provider_ignores_case() {
    let env = HostEnvironment::unset();
    let p = create_provider("MoCk", ProviderConfig::default(), &env).ok().unwrap();
    assert_eq!(p.name(), "mock");
    let p = create_provider("OpenAI", ProviderConfig::default(), &env).ok().unwrap();
    assert!(matches!(p, ProviderInstance::OpenAi(_)));
    assert_eq!(normalize_provider_name("CoDeX"), "codex");
}

#[test]
fn create_provider_rejects_unknown_names() {
    let env = HostEnvironment::unset();
    let err = create_provider("X", ProviderConfig::default(), &env).err().unwrap();
    assert_eq!(err, "provider 'X' is not available");
}

#[test]
fn status_names_cover_one_or_all() {
    let all = status_provider_names(&StatusRequest { source_mode: SourceMode::Auto, provider: None });
    assert_eq!(all, vec!["mock", "codex", "ollama", "openai"]);
    let one = status_provider_names(&StatusRequest {
        source_mode: SourceMode::Cli,
        provider: Some("ollama".to_string()),
    });
    assert_eq!(one, vec!["ollama"]);
}

#[test]
fn mock_reports_five_of_one_hundred_for_every_source() {
    let mock = MockProvider::new(ProviderConfig::default());
    assert_eq!(mock.model, "mock-v1");
    for mode in [SourceMode::Auto, SourceMode::Api, SourceMode::Cli] {
        let s = mock.status(&StatusRequest { source_mode: mode, provider: None });
        assert_eq!(s.provider, "mock");
        assert_eq!(s.primary.used, Some(5));
        assert_eq!(s.primary.limit, Some(100));
        assert_eq!(s.primary.remaining, Some(95));
        assert_eq!(s.source, FetchSource::Mock);
        assert_eq!(s.health, ProviderHealth::Okay);
    }
}

#[test]
fn mock_generate_counts_words() {
    let mock = MockProvider::new(ProviderConfig { model: Some("m2".to_string()), base_url: None });
    let r = mock.generate(&ProviderRequest { prompt: "  hello   wide\tworld ".to_string() });
    assert_eq!(r.provider, "mock");
    assert_eq!(r.output, "[model=m2] tokens=3 echo=  hello   wide\tworld ");
    assert_eq!(count_words(""), 0);
    assert_eq!(count_words("one"), 1);
}

#[test]
fn ollama_resolves_base_url_and_model() {
    let mut env = HostEnvironment::unset();
    let p = OllamaProvider::new(ProviderConfig::default(), &env);
    assert_eq!(p.base_url, "http://127.0.0.1:11434");
    assert_eq!(p.model, "llama3.2");
    env.ollama_base_url = Some("http://host:1//".to_string());
    env.ollama_model = Some("qwen".to_string());
    let p = OllamaProvider::new(ProviderConfig::default(), &env);
    assert_eq!(p.base_url, "http://host:1");
    assert_eq!(p.model, "qwen");
    assert_eq!(p.endpoint(), "http://host:1/api/generate");
    assert_eq!(p.status_url(), "http://host:1/api/status");
    let p = OllamaProvider::new(
        ProviderConfig { model: Some("m".to_string()), base_url: Some("http://c/".to_string()) },
        &env,
    );
    assert_eq!(p.base_url, "http://c");
    assert_eq!(p.model, "m");
}

#[test]
fn ollama_status_usage_falls_back() {
    let u = OllamaProvider::usage_from_status(None);
    assert_eq!((u.used, u.limit), (12, 100));
    let u = OllamaProvider::usage_from_status(Some(OllamaUsageInfo { current: 3, used: 7, limit: 0 }));
    assert_eq!((u.used, u.limit), (7, 100));
    let u = OllamaProvider::usage_from_status(Some(OllamaUsageInfo { current: 0, used: 0, limit: 50 }));
    assert_eq!((u.used, u.limit), (12, 50));
    let s = OllamaProvider::snapshot_from_usage(u);
    assert_eq!(s.source, FetchSource::Api);
    assert_eq!(s.primary.remaining, Some(38));
}

#[test]
fn ollama_cli_counts_models() {
    assert_eq!(count_listed_models("NAME ID SIZE\n"), 0);
    assert_eq!(count_listed_models(""), 0);
    assert_eq!(count_listed_models("NAME ID\nllama3 abc\n\nqwen def\n"), 2);
    match OllamaProvider::finish_cli_status(
        SourceMode::Cli,
        Ok(("NAME\n".to_string(), "NAME\na\nb\n".to_string())),
    ) {
        OllamaCliOutcome::Snapshot(s) => {
            assert_eq!(s.primary.used, Some(0));
            assert_eq!(s.secondary.as_ref().unwrap().used, Some(2));
            assert_eq!(s.source, FetchSource::Cli);
        },
        OllamaCliOutcome::UseApi => panic!("expected a snapshot"),
    }
}

#[test]
fn ollama_cli_failure_falls_back_under_auto_only() {
    assert!(matches!(
        OllamaProvider::finish_cli_status(SourceMode::Auto, Err("no ollama".to_string())),
        OllamaCliOutcome::UseApi
    ));
    match OllamaProvider::finish_cli_status(SourceMode::Cli, Err("no ollama".to_string())) {
        OllamaCliOutcome::Snapshot(s) => {
            assert_eq!(s.health, ProviderHealth::Error);
            assert!(s.stale);
            assert_eq!(s.error.as_deref(), Some("ollama CLI status collection failed: no ollama"));
        },
        OllamaCliOutcome::UseApi => panic!("expected a snapshot"),
    }
    assert!(!OllamaProvider::starts_with_cli(SourceMode::Api));
    assert!(OllamaProvider::starts_with_cli(SourceMode::Auto));
}

#[test]
fn ollama_generate_reply_handling() {
    let ok = OllamaProvider::response_from_body("hi".to_string(), None).ok().unwrap();
    assert_eq!((ok.provider.as_str(), ok.output.as_str()), ("ollama", "hi"));
    let err = OllamaProvider::response_from_body(String::new(), Some("bad".to_string())).err().unwrap();
    assert_eq!(err, "ollama API returned an error: bad");
    assert_eq!(
        OllamaProvider::request_failed_message("500 Internal Server Error", "oops"),
        "ollama request failed with status 500 Internal Server Error: oops"
    );
}

#[test]
fn openai_resolves_key_model_and_base() {
    let mut env = HostEnvironment::unset();
    let p = OpenAiProvider::new(ProviderConfig::default(), &env);
    assert_eq!(p.base_url, "https://api.openai.com/v1");
    assert_eq!(p.model.as_deref(), Some("gpt-4o-mini"));
    assert!(p.api_key.is_none());
    env.openai_api_key = Some("  sk-1 ".to_string());
    env.openai_model = Some("  ".to_string());
    let p = OpenAiProvider::new(ProviderConfig::default(), &env);
    assert_eq!(p.api_key.as_deref(), Some("sk-1"));
    assert_eq!(p.model.as_deref(), Some("gpt-4o-mini"));
    env.openai_admin_key = Some(" ".to_string());
    let p = OpenAiProvider::new(ProviderConfig::default(), &env);
    assert_eq!(p.api_key.as_deref(), Some("sk-1"));
    env.openai_admin_key = Some(" admin-1".to_string());
    let p = OpenAiProvider::new(ProviderConfig::default(), &env);
    assert_eq!(p.api_key.as_deref(), Some("admin-1"));
    env.openai_api_key = None;
    env.openai_admin_key = Some("\t".to_string());
    let p = OpenAiProvider::new(ProviderConfig::default(), &env);
    assert!(p.api_key.is_none());
    assert_eq!(p.endpoint(), "https://api.openai.com/v1/organization/usage/completions");
}

#[test]
fn openai_plans_by_source_and_key() {
    let mut env = HostEnvironment::unset();
    let p = OpenAiProvider::new(ProviderConfig::default(), &env);
    match p.plan_status(SourceMode::Cli) {
        OpenAiStatusPlan::Done(s) => {
            assert_eq!(s.health, ProviderHealth::Degraded);
            assert_eq!(s.source, FetchSource::Cli);
            assert_eq!(s.error.as_deref(), Some("openai CLI status strategy is not implemented"));
        },
        OpenAiStatusPlan::QueryUsage => panic!("cli needs no query"),
    }
    match p.plan_status(SourceMode::Auto) {
        OpenAiStatusPlan::Done(s) => {
            assert_eq!(s.health, ProviderHealth::MissingCredentials);
            assert_eq!(s.source, FetchSource::Unknown);
            assert_eq!(s.error.as_deref(), Some("OPENAI_ADMIN_KEY or OPENAI_API_KEY is not set"));
        },
        OpenAiStatusPlan::QueryUsage => panic!("no key, no query"),
    }
    env.openai_admin_key = Some("k".to_string());
    let p = OpenAiProvider::new(ProviderConfig::default(), &env);
    assert!(matches!(p.plan_status(SourceMode::Api), OpenAiStatusPlan::QueryUsage));
}

#[test]
fn openai_bucket_snapshot_sums_results() {
    let env = HostEnvironment::unset();
    let p = OpenAiProvider::new(ProviderConfig::default(), &env);
    let bucket = OpenAiUsageBucket {
        end_time: 1700000000,
        results: vec![
            OpenAiUsageResult { input_tokens: Some(10), output_tokens: Some(5), num_model_requests: Some(2) },
            OpenAiUsageResult { input_tokens: None, output_tokens: Some(1), num_model_requests: None },
        ],
    };
    let s = p.snapshot_from_bucket(&bucket);
    assert_eq!(s.primary.used, Some(16));
    assert_eq!(s.primary.limit, None);
    assert_eq!(s.prompt_tokens, Some(10));
    assert_eq!(s.completion_tokens, Some(6));
    assert_eq!(s.total_tokens, Some(16));
    assert_eq!(s.secondary.as_ref().unwrap().used, Some(2));
    assert_eq!(s.updated_at.as_deref(), Some("1700000000"));
    let big = OpenAiUsageBucket {
        end_time: 0,
        results: vec![OpenAiUsageResult { input_tokens: Some(5_000_000_000), output_tokens: None, num_model_requests: None }],
    };
    let s = p.snapshot_from_bucket(&big);
    assert_eq!(s.prompt_tokens, None);
    assert_eq!(s.total_tokens, None);
    assert_eq!(s.primary.used, Some(5_000_000_000));
    let e = p.finish_status(Err("down".to_string()));
    assert_eq!(e.health, ProviderHealth::Error);
    assert_eq!(e.error.as_deref(), Some("down"));
}

#[test]
fn openai_latest_bucket_is_the_last_of_the_latest() {
    let b = |end, input| OpenAiUsageBucket {
        end_time: end,
        results: vec![OpenAiUsageResult { input_tokens: Some(input), output_tokens: None, num_model_requests: None }],
    };
    let chosen = select_latest_bucket(vec![b(5, 1), b(9, 2), b(9, 3), b(1, 4)]).ok().unwrap();
    assert_eq!(chosen.end_time, 9);
    assert_eq!(chosen.results[0].input_tokens, Some(3));
    assert_eq!(
        select_latest_bucket(vec![]).err().unwrap(),
        "OpenAI usage API returned no usage buckets"
    );
}

#[test]
fn openai_failure_messages_and_window() {
    assert_eq!(
        OpenAiProvider::request_failure_message(403, "403 Forbidden", "nope"),
        "OpenAI usage API rejected the key (403). An admin-scoped key is required for organization usage endpoints: nope"
    );
    assert_eq!(
        OpenAiProvider::request_failure_message(500, "500 Internal Server Error", "x"),
        "OpenAI usage API request failed with status 500 Internal Server Error: x"
    );
    assert_eq!(OpenAiProvider::usage_window_bounds(100000), (13600, 100000));
    assert_eq!(OpenAiProvider::usage_window_bounds(5), (0, 5));
}

#[test]
fn openai_usage_query_covers_the_last_day() {
    let mut env = HostEnvironment::unset();
    let p = OpenAiProvider::new(ProviderConfig::default(), &env);
    let q = p.usage_query(100_000);
    let pairs: Vec<(&str, &str)> = q.iter().map(|(k, v)| (k.as_str(), v.as_str())).collect();
    assert_eq!(
        pairs,
        vec![("start_time", "13600"), ("end_time", "100000"), ("bucket_width", "1d"), ("models[]", "gpt-4o-mini")]
    );
    env.openai_model = Some(" gpt-x ".to_string());
    let p = OpenAiProvider::new(ProviderConfig::default(), &env);
    let q = p.usage_query(5);
    assert_eq!(q[0].1, "0");
    assert_eq!(q[3].1, "gpt-x");
}
