use mcp_multi_tool::config::{
    parse_flag, profile_file, profile_names, AppConfig, ConfigOverlay, EnvValues,
    ErrorBudgetOverlay, ErrorBudgetSettings, IdempotencyConflictPolicy,
};
use mcp_multi_tool::types::ReleaseTrack;

fn no_env() -> EnvValues {
    EnvValues {
        metrics_addr: None,
        allow_insecure_metrics_dev: None,
        metrics_auth_token: None,
        metrics_tls_cert_path: None,
        metrics_tls_key_path: None,
        outbox_path: None,
        outbox_dlq_path: None,
        outbox_db_path: None,
        idempotency_conflict_policy: None,
        error_budget_enabled: None,
        error_budget_success_threshold: None,
        error_budget_sample_window_secs: None,
        error_budget_min_requests: None,
        error_budget_freeze_secs: None,
        release_track: None,
    }
}

fn empty_overlay() -> ConfigOverlay {
    ConfigOverlay::from_env(no_env())
}

#[test]
fn load_from_dir_without_files_uses_defaults() {
    let cfg = AppConfig::from_overlays(vec![ConfigOverlay::from_env(no_env())]);
    assert!(cfg.metrics_addr.is_none());
    assert_eq!(
        cfg.idempotency_conflict_policy,
        IdempotencyConflictPolicy::Conflict409
    );
    let (main, dlq) = cfg.outbox_paths();
    assert_eq!(main, "data/outbox/events.jsonl");
    assert_eq!(dlq, "data/outbox/dlq.jsonl");
    assert!(cfg.error_budget.enabled);
    assert_eq!(cfg.error_budget.success_threshold, 990_000);
    assert_eq!(cfg.release_track, ReleaseTrack::Stable);
    assert!(cfg.outbox_db_path().is_none());
}

#[test]
fn load_merges_profile_local_and_env() {
    let mut default_profile = empty_overlay();
    default_profile.metrics_addr = Some("127.0.0.1:9999".into());
    let mut beta = empty_overlay();
    beta.allow_insecure_metrics_dev = Some(true);
    let mut local = empty_overlay();
    local.outbox_path = Some("/tmp/outbox.jsonl".into());

    let mut env = no_env();
    env.metrics_addr = Some("127.0.0.1:5555".into());
    env.metrics_auth_token = Some("secret".into());
    env.metrics_tls_cert_path = Some("/tmp/cert.pem".into());
    env.metrics_tls_key_path = Some("/tmp/key.pem".into());
    env.idempotency_conflict_policy = Some("return_existing".into());
    env.error_budget_enabled = Some("false".into());
    env.error_budget_success_threshold = Some(750_000);
    env.release_track = Some("canary".into());

    assert_eq!(profile_names(Some("beta")), vec!["default", "beta", "local"]);
    let cfg = AppConfig::from_overlays(vec![
        default_profile,
        beta,
        local,
        ConfigOverlay::from_env(env),
    ]);
    assert_eq!(cfg.metrics_addr.as_deref(), Some("127.0.0.1:5555"));
    assert_eq!(cfg.metrics_auth_token.as_deref(), Some("secret"));
    assert_eq!(cfg.metrics_tls_cert_path.as_deref(), Some("/tmp/cert.pem"));
    assert_eq!(cfg.metrics_tls_key_path.as_deref(), Some("/tmp/key.pem"));
    assert_eq!(cfg.allow_insecure_metrics_dev, Some(true));
    assert_eq!(cfg.outbox_path.as_deref(), Some("/tmp/outbox.jsonl"));
    assert_eq!(
        cfg.idempotency_conflict_policy,
        IdempotencyConflictPolicy::ReturnExisting
    );
    assert!(!cfg.error_budget.enabled);
    assert_eq!(cfg.error_budget.success_threshold, 750_000);
    assert_eq!(cfg.release_track, ReleaseTrack::Canary);
}

#[test]
fn error_budget_overlay_merges_partials() {
    let mut settings = ErrorBudgetSettings::default();
    settings.apply_overlay(ErrorBudgetOverlay {
        enabled: Some(false),
        success_threshold: Some(900_000),
        sample_window_secs: None,
        minimum_requests: Some(10),
        freeze_window_secs: Some(60),
    });
    assert!(!settings.enabled);
    assert_eq!(settings.success_threshold, 900_000);
    assert_eq!(settings.minimum_requests, 10);
    assert_eq!(settings.freeze_window_secs, 60);
    assert_eq!(settings.sample_window_secs, 120);
}

#[test]
fn metrics_server_config_requires_tls_pair() {
    let mut file = empty_overlay();
    file.metrics_addr = Some("0.0.0.0:9100".into());
    file.allow_insecure_metrics_dev = Some(false);
    let mut env = no_env();
    env.metrics_tls_cert_path = Some("cert.pem".into());
    env.metrics_tls_key_path = Some("key.pem".into());
    let cfg = AppConfig::from_overlays(vec![file, ConfigOverlay::from_env(env)]);
    let server_cfg = cfg.metrics_server_config().expect("metrics cfg");
    let server_cfg = server_cfg.expect("metrics enabled");
    assert_eq!(server_cfg.addr, "0.0.0.0:9100");
    assert!(server_cfg.tls.is_some());
    assert!(!server_cfg.allow_insecure);
    let tls = server_cfg.tls.unwrap();
    assert_eq!(tls.cert_path, "cert.pem");
    assert_eq!(tls.key_path, "key.pem");
}

#[test]
fn metrics_server_config_rejects_half_a_pair() {
    let mut cfg = AppConfig::default();
    assert!(cfg.metrics_server_config().unwrap().is_none());
    cfg.metrics_tls_cert_path = Some("cert.pem".into());
    // without an address nothing is served, whatever else is set
    assert!(cfg.metrics_server_config().unwrap().is_none());
    cfg.metrics_addr = Some("127.0.0.1:1".into());
    assert_eq!(
        cfg.metrics_server_config().unwrap_err(),
        "metrics TLS requires both METRICS_TLS_CERT_PATH and METRICS_TLS_KEY_PATH"
    );
    cfg.metrics_tls_cert_path = None;
    cfg.metrics_tls_key_path = Some("key.pem".into());
    assert!(cfg.metrics_server_config().is_err());
    cfg.metrics_tls_key_path = None;
    cfg.metrics_auth_token = Some("t".into());
    let plain = cfg.metrics_server_config().unwrap().unwrap();
    assert!(plain.tls.is_none());
    assert_eq!(plain.auth_token.as_deref(), Some("t"));
    assert!(!plain.allow_insecure);
}

#[test]
fn policy_names() {
    assert_eq!(
        IdempotencyConflictPolicy::from_str("return_existing"),
        Ok(IdempotencyConflictPolicy::ReturnExisting)
    );
    assert_eq!(
        IdempotencyConflictPolicy::from_str("Return_Existing"),
        Ok(IdempotencyConflictPolicy::ReturnExisting)
    );
    for name in ["409", "conflict_409", "conflict", "CONFLICT"] {
        assert_eq!(
            IdempotencyConflictPolicy::from_str(name),
            Ok(IdempotencyConflictPolicy::Conflict409)
        );
    }
    assert_eq!(
        IdempotencyConflictPolicy::from_str("Whatever"),
        Err("unknown idempotency conflict policy 'whatever'".to_string())
    );
    assert_eq!(
        IdempotencyConflictPolicy::default(),
        IdempotencyConflictPolicy::Conflict409
    );
}

#[test]
fn release_track_names() {
    assert_eq!(ReleaseTrack::from_str("stable"), Some(ReleaseTrack::Stable));
    assert_eq!(ReleaseTrack::from_str("Canary"), Some(ReleaseTrack::Canary));
    assert_eq!(ReleaseTrack::from_str("ROLLBACK"), Some(ReleaseTrack::Rollback));
    assert_eq!(ReleaseTrack::from_str("beta"), None);
    assert_eq!(ReleaseTrack::Stable.as_str(), "stable");
    assert_eq!(ReleaseTrack::Canary.as_str(), "canary");
    assert_eq!(ReleaseTrack::Rollback.as_str(), "rollback");
    assert!(ReleaseTrack::Stable.allows_inspector());
    assert!(ReleaseTrack::Canary.allows_inspector());
    assert!(!ReleaseTrack::Rollback.allows_inspector());
    assert_eq!(ReleaseTrack::default(), ReleaseTrack::Stable);
}

#[test]
fn environment_values_that_cannot_be_read_count_as_unset() {
    let mut env = no_env();
    env.allow_insecure_metrics_dev = Some("yes".into());
    env.idempotency_conflict_policy = Some("sometimes".into());
    env.release_track = Some("beta".into());
    env.error_budget_enabled = Some("1".into());
    env.error_budget_min_requests = Some("-3".into());
    env.error_budget_freeze_secs = Some("12s".into());
    let overlay = ConfigOverlay::from_env(env);
    assert_eq!(overlay.allow_insecure_metrics_dev, None);
    assert_eq!(overlay.idempotency_conflict_policy, None);
    assert_eq!(overlay.release_track, None);
    assert_eq!(overlay.error_budget, None);
}

#[test]
fn environment_numbers_are_read() {
    let mut env = no_env();
    env.error_budget_sample_window_secs = Some("90".into());
    env.error_budget_min_requests = Some("7".into());
    env.error_budget_freeze_secs = Some("+15".into());
    env.allow_insecure_metrics_dev = Some("true".into());
    let overlay = ConfigOverlay::from_env(env);
    assert_eq!(overlay.allow_insecure_metrics_dev, Some(true));
    assert_eq!(
        overlay.error_budget,
        Some(ErrorBudgetOverlay {
            enabled: None,
            success_threshold: None,
            sample_window_secs: Some(90),
            minimum_requests: Some(7),
            freeze_window_secs: Some(15),
        })
    );
    assert_eq!(parse_flag("true"), Some(true));
    assert_eq!(parse_flag("false"), Some(false));
    assert_eq!(parse_flag("True"), None);
    assert_eq!(parse_flag(""), None);
}

#[test]
fn settings_become_breaker_parameters() {
    let params = ErrorBudgetSettings::default().to_params();
    assert!(params.enabled);
    assert_eq!(params.success_threshold, 990_000);
    assert_eq!(params.minimum_requests, 20);
    assert_eq!(params.sample_window, 120_000_000_000);
    assert_eq!(params.freeze_duration, 300_000_000_000);
    let huge = ErrorBudgetSettings {
        enabled: true,
        success_threshold: 1,
        sample_window_secs: u64::MAX,
        minimum_requests: 1,
        freeze_window_secs: 18_446_744_073,
    };
    assert_eq!(huge.to_params().sample_window, u64::MAX);
    assert_eq!(huge.to_params().freeze_duration, 18_446_744_073_000_000_000);
}

#[test]
fn profiles_are_read_in_order() {
    assert_eq!(profile_names(None), vec!["default", "local"]);
    assert_eq!(profile_names(Some("default")), vec!["default", "local"]);
    assert_eq!(profile_names(Some("   ")), vec!["default", "local"]);
    assert_eq!(profile_names(Some("")), vec!["default", "local"]);
    assert_eq!(profile_names(Some("prod")), vec!["default", "prod", "local"]);
    assert_eq!(profile_file("prod"), "prod.toml");
}

#[test]
fn later_overlays_win() {
    let mut first = empty_overlay();
    first.outbox_path = Some("a".into());
    first.outbox_db_path = Some("db".into());
    first.release_track = Some(ReleaseTrack::Rollback);
    let mut second = empty_overlay();
    second.outbox_path = Some("b".into());
    let cfg = AppConfig::from_overlays(vec![first, second]);
    assert_eq!(cfg.outbox_path.as_deref(), Some("b"));
    assert_eq!(cfg.outbox_db_path().as_deref(), Some("db"));
    assert_eq!(cfg.release_track, ReleaseTrack::Rollback);
    let (main, dlq) = cfg.outbox_paths();
    assert_eq!(main, "b");
    assert_eq!(dlq, "data/outbox/dlq.jsonl");
}
