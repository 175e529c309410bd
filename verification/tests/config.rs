use suppressor::config::{
    default_log_filter, default_rate_limit_backoff_default_seconds,
    default_rate_limit_stop_after_failures, default_request_pages,
    default_source_refresh_title_scope_limit, default_unresolved_sample_limit,
    default_warning_sample_limit, load_env, parse_env_file, resolve_env_value, AppConfig,
    AuthConfig, CatchupConfig, ConfigError, DaytimeVerificationConfig, EnvError, LoggingConfig,
    MatchingConfig, MetricsConfig, NightlySweepConfig, QueueConfig, RealtimeConfig, RetryConfig,
    RevDelConfig, RuntimePaths, StateConfig, SuppressionListConfig, WikiConfig,
};

fn example_config(username_env: &str, password_env: &str) -> AppConfig {
    AppConfig {
        wiki: WikiConfig {
            api_url: "https://be.wikipedia.org/w/api.php".to_string(),
            stream_url: "https://stream.wikimedia.org/v2/stream/recentchange".to_string(),
            wiki_code: "bewiki".to_string(),
            server_name: "be.wikipedia.org".to_string(),
            user_agent: "bewiki-revdel-daemon/1.0 (contact on-wiki)".to_string(),
        },
        auth: AuthConfig {
            username_env: username_env.to_string(),
            password_env: password_env.to_string(),
        },
        suppression_list: SuppressionListConfig {
            title: "Вікіпедыя:Спіс".to_string(),
            cache_file: "./state/suppression_list_cache.json".to_string(),
            metadata_recheck_seconds: 300,
            request_pages: default_request_pages(),
        },
        matching: MatchingConfig {
            drop_canary: true,
            exact_title_match: true,
        },
        revdel: RevDelConfig {
            hide: vec!["content".to_string()],
            suppress: false,
            reason: "reason".to_string(),
        },
        queue: QueueConfig { capacity: 100 },
        state: StateConfig {
            dir: "./state".to_string(),
            last_event_id_file: "./state/last_event_id".to_string(),
            processed_revids_file: "./state/processed_revids.json".to_string(),
            nightly_sweep_progress_file: "./state/nightly.json".to_string(),
            runtime_status_file: "./state/runtime_status.json".to_string(),
            pid_file: "./state/daemon.pid".to_string(),
        },
        retry: RetryConfig {
            stream_backoff_initial_ms: 1000,
            stream_backoff_max_ms: 60000,
            api_max_retries: 3,
            since_recovery_seconds: 600,
        },
        realtime: RealtimeConfig {
            stale_threshold_seconds: 120,
            stream_read_timeout_seconds: 60,
            freshness_probe_seconds: 300,
        },
        catchup: CatchupConfig {
            default_window_seconds: 3600,
            max_window_seconds: 86400,
            max_revisions_per_run: 500,
            warning_sample_limit: default_warning_sample_limit(),
            source_refresh_title_scope_limit: default_source_refresh_title_scope_limit(),
            rate_limit_backoff_default_seconds: default_rate_limit_backoff_default_seconds(),
            rate_limit_stop_after_failures: default_rate_limit_stop_after_failures(),
            unresolved_sample_limit: default_unresolved_sample_limit(),
        },
        nightly_sweep: NightlySweepConfig {
            enabled: true,
            timezone: "Europe/Minsk".to_string(),
            start_time: "02:00".to_string(),
            randomized_window_minutes: 30,
            page_concurrency: 2,
            batch_sleep_ms: 100,
        },
        daytime_verification: DaytimeVerificationConfig {
            enabled: true,
            min_delay_seconds: 600,
            max_delay_seconds: 1800,
            window_hours: 24,
        },
        logging: LoggingConfig {
            level: "info".to_string(),
            format: "compact".to_string(),
        },
        metrics: MetricsConfig {
            enabled: false,
            bind: "127.0.0.1:9000".to_string(),
        },
    }
}

fn pairs(items: &[(&str, &str)]) -> Vec<(String, String)> {
    items
        .iter()
        .map(|(k, v)| (k.to_string(), v.to_string()))
        .collect()
}

#[test]
fn resolves_relative_paths_from_config_dir() {
    let config_path = "/tmp/suppressor/config.toml";
    let resolved = AppConfig::resolve_path(config_path, "./state/file.json");
    assert_eq!(resolved, "/tmp/suppressor/./state/file.json");
}

#[test]
fn default_log_filter_uses_debug_for_verbose_mode() {
    assert_eq!(
        default_log_filter(false),
        "warn,suppressor=info,hyper=warn,hyper_util=warn,h2=warn,reqwest=warn"
    );
    assert_eq!(
        default_log_filter(true),
        "warn,suppressor=debug,hyper=warn,hyper_util=warn,h2=warn,reqwest=info"
    );
}

#[test]
fn loads_env_uses_config_defaults_and_configured_auth_env_names() {
    let config = example_config("TEST_BOT_USERNAME", "TEST_BOT_PASSWORD");
    let dotenv = "TEST_BOT_USERNAME=Bot@password\nTEST_BOT_PASSWORD=secret\n";
    let loaded = load_env(
        &config,
        "/tmp/suppressor/.env".to_string(),
        Some(dotenv),
        &Vec::new(),
    )
    .unwrap();
    assert_eq!(loaded.api_url, "https://be.wikipedia.org/w/api.php");
    assert_eq!(
        loaded.stream_url,
        "https://stream.wikimedia.org/v2/stream/recentchange"
    );
    assert_eq!(loaded.user_agent, "bewiki-revdel-daemon/1.0 (contact on-wiki)");
    assert_eq!(loaded.bot_username, "Bot@password");
    assert_eq!(loaded.bot_password, "secret");
}

#[test]
fn loads_env_prefers_process_env_then_dotenv_over_config_defaults() {
    let config = example_config("TEST_BOT_USERNAME", "TEST_BOT_PASSWORD");
    let dotenv = [
        "BEWIKI_API_URL=https://dotenv.example/w/api.php\n",
        "BEWIKI_STREAM_URL=https://dotenv.example/stream\n",
        "BEWIKI_USER_AGENT=bewiki-revdel-daemon/1.0 (from-dotenv)\n",
        "TEST_BOT_USERNAME=Bot@dotenv\n",
        "TEST_BOT_PASSWORD=dotenv-secret\n",
    ]
    .concat();
    let process = pairs(&[
        ("BEWIKI_API_URL", "https://process.example/w/api.php"),
        ("BEWIKI_USER_AGENT", "bewiki-revdel-daemon/1.0 (from-process)"),
    ]);
    let loaded = load_env(&config, ".env".to_string(), Some(&dotenv), &process).unwrap();
    assert_eq!(loaded.api_url, "https://process.example/w/api.php");
    assert_eq!(loaded.stream_url, "https://dotenv.example/stream");
    assert_eq!(loaded.user_agent, "bewiki-revdel-daemon/1.0 (from-process)");
    assert_eq!(loaded.bot_username, "Bot@dotenv");
    assert_eq!(loaded.bot_password, "dotenv-secret");
}

#[test]
fn loads_env_without_dotenv_when_process_env_supplies_auth() {
    let config = example_config("TEST_BOT_USERNAME", "TEST_BOT_PASSWORD");
    let process = pairs(&[
        ("TEST_BOT_USERNAME", "Bot@process"),
        ("TEST_BOT_PASSWORD", "process-secret"),
    ]);
    let loaded = load_env(&config, ".env".to_string(), None, &process).unwrap();
    assert_eq!(loaded.api_url, "https://be.wikipedia.org/w/api.php");
    assert_eq!(
        loaded.stream_url,
        "https://stream.wikimedia.org/v2/stream/recentchange"
    );
    assert_eq!(loaded.user_agent, "bewiki-revdel-daemon/1.0 (contact on-wiki)");
    assert_eq!(loaded.bot_username, "Bot@process");
    assert_eq!(loaded.bot_password, "process-secret");
}

#[test]
fn load_env_reports_missing_credentials_and_bad_lines() {
    let config = example_config("TEST_BOT_USERNAME", "TEST_BOT_PASSWORD");
    let missing = load_env(&config, ".env".to_string(), None, &Vec::new()).unwrap_err();
    assert_eq!(
        missing,
        EnvError::MissingAuth {
            names: vec![
                "TEST_BOT_USERNAME".to_string(),
                "TEST_BOT_PASSWORD".to_string()
            ]
        }
    );
    assert_eq!(
        missing.message(".env"),
        "Missing required auth env values (from process env or .env): TEST_BOT_USERNAME, TEST_BOT_PASSWORD"
    );
    let bad = load_env(
        &config,
        ".env".to_string(),
        Some("# comment\nTEST_BOT_USERNAME=x\nnot a pair\n"),
        &Vec::new(),
    )
    .unwrap_err();
    assert_eq!(bad, EnvError::InvalidLine { line: 3 });
    assert_eq!(bad.message("/srv/.env"), "Invalid .env line 3 in /srv/.env");
}

#[test]
fn env_file_lines_are_trimmed_and_unquoted() {
    let parsed = parse_env_file("  A = 1 \n\n# note\nB=\"two words \"\nC=' x'\r\nD==e\n").unwrap();
    assert_eq!(
        parsed,
        pairs(&[("A", "1"), ("B", "two words "), ("C", " x"), ("D", "=e")])
    );
    let process = pairs(&[("A", "from-process")]);
    assert_eq!(
        resolve_env_value("A", &process, &parsed),
        Some("from-process".to_string())
    );
    assert_eq!(resolve_env_value("D", &process, &parsed), Some("=e".to_string()));
    assert_eq!(resolve_env_value("Z", &process, &parsed), None);
}

#[test]
fn runtime_paths_resolve_from_config_once() {
    let config = example_config("U", "P");
    let paths = RuntimePaths::resolve("/tmp/suppressor/config.toml", &config, None);

    assert_eq!(paths.config_path, "/tmp/suppressor/config.toml");
    assert_eq!(paths.state_dir, "/tmp/suppressor/./state");
    assert_eq!(paths.env_file, "/tmp/suppressor/.env");
    assert_eq!(
        paths.cache_file,
        "/tmp/suppressor/./state/suppression_list_cache.json"
    );
    assert_eq!(paths.pid_file, "/tmp/suppressor/./state/daemon.pid");
    assert_eq!(
        paths.command_report_file(),
        "/tmp/suppressor/./state/command_report.json"
    );
    let named = RuntimePaths::resolve(
        "/tmp/suppressor/config.toml",
        &config,
        Some("/etc/bot.env".to_string()),
    );
    assert_eq!(named.env_file, "/etc/bot.env");
    assert_eq!(AppConfig::resolve_path("config.toml", "/abs/file"), "/abs/file");
    assert_eq!(AppConfig::resolve_path("config.toml", "rel/file"), "rel/file");
}

#[test]
fn production_config_includes_bounded_recovery_defaults() {
    let config = example_config("U", "P");
    assert_eq!(
        config.suppression_list.request_pages,
        vec!["Вікіпедыя:Запыты да схавальнікаў".to_string()]
    );
    assert_eq!(config.catchup.warning_sample_limit, 5);
    assert_eq!(config.catchup.source_refresh_title_scope_limit, 250);
    assert_eq!(config.catchup.rate_limit_backoff_default_seconds, 30);
    assert_eq!(config.catchup.rate_limit_stop_after_failures, 3);
    assert_eq!(config.catchup.unresolved_sample_limit, 25);
}

#[test]
fn rejects_unbounded_warning_sample_defaults() {
    let mut config = example_config("U", "P");
    config.catchup.warning_sample_limit = 0;
    let error = config.validate().unwrap_err();
    assert_eq!(error, ConfigError::WarningSampleLimitZero);
    assert!(error.message().contains("catchup.warning_sample_limit"));
}

#[test]
fn rejects_zero_rate_limit_stop_after_failures() {
    let mut config = example_config("U", "P");
    config.catchup.rate_limit_stop_after_failures = 0;
    let error = config.validate().unwrap_err();
    assert!(error.message().contains("catchup.rate_limit_stop_after_failures"));
}

#[test]
fn rejects_zero_unresolved_sample_limit() {
    let mut config = example_config("U", "P");
    config.catchup.unresolved_sample_limit = 0;
    let error = config.validate().unwrap_err();
    assert!(error.message().contains("catchup.unresolved_sample_limit"));
}

#[test]
fn validation_reports_the_first_failed_check() {
    let config = example_config("U", "P");
    assert_eq!(config.validate(), Ok(()));
    let mut bad = example_config("U", "P");
    bad.queue.capacity = 0;
    bad.catchup.max_revisions_per_run = 0;
    assert_eq!(bad.validate(), Err(ConfigError::QueueCapacityZero));
    let mut window = example_config("U", "P");
    window.catchup.max_window_seconds = 10;
    assert_eq!(window.validate(), Err(ConfigError::MaxWindowBelowDefault));
    let mut delays = example_config("U", "P");
    delays.daytime_verification.min_delay_seconds = 5000;
    assert_eq!(delays.validate(), Err(ConfigError::DaytimeDelaysInverted));
}
