use creator_signal_auth::automation::{
    admit_operation, capability, fixed_policy_path, fixed_secret_path, load_automation_policy,
    names_along, operation_allowed, policy_path, read_bounded_secret,
    validate_automation_credentials, AuthError, AutomationSettings, Capability, Method, PolicyRead,
    SecretFiles, UserRole, DASHBOARD_IDENTITY, INGEST_IDENTITY, QUERY_IDENTITY,
};
use creator_signal_auth::policy::{
    valid_org, validate_policy, AutomationPolicy, DashboardDefinition, QueryTemplate,
    MAX_POLICY_BYTES, POLICY_SCHEMA,
};
use creator_signal_auth::template::{
    placeholders_are_supported, template_matches, template_regex, MAX_TEMPLATE_BYTES,
};

fn policy() -> AutomationPolicy {
    AutomationPolicy {
        schema: POLICY_SCHEMA.to_string(),
        organization: "default".to_string(),
        max_time_range_micros: 600_000_000,
        max_result_size: 10,
        query_templates: vec![QueryTemplate {
            id: "canary-count".to_string(),
            signal: "logs".to_string(),
            sql: "SELECT count(*) AS matches FROM \"default\" WHERE creator_signal_canary_id = '{{canary}}'".to_string(),
        }],
        dashboards: vec![DashboardDefinition {
            title: "Creator Signal 00 - Telemetry".to_string(),
            body_sha256: "a".repeat(64),
        }],
    }
}

fn settings() -> AutomationSettings {
    AutomationSettings {
        enabled: true,
        org: " default ".to_string(),
        ingest_token_file: "/run/secrets/ingest".to_string(),
        query_token_file: "/run/secrets/query".to_string(),
        dashboard_token_file: "/run/creator-signal-secrets/dashboard".to_string(),
        policy_file: "/run/secrets/policy.json".to_string(),
    }
}

fn files() -> SecretFiles {
    SecretFiles {
        ingest: Some(format!("{}\n", "i".repeat(32))),
        query: Some(format!("{}\n", "q".repeat(32))),
        dashboard: Some(format!("{}\n", "d".repeat(32))),
    }
}

#[test]
fn policy_rejects_raw_or_unbounded_templates() {
    assert!(validate_policy(&policy(), "default").is_ok());
    let mut raw = policy();
    raw.query_templates[0].sql = "SELECT * FROM \"default\"".to_string();
    assert!(validate_policy(&raw, "default").is_err());
    let mut mismatched = policy();
    mismatched.organization = "other".to_string();
    assert!(validate_policy(&mismatched, "default").is_err());
}

#[test]
fn fixed_capabilities_reject_cross_scope_paths() {
    assert!(operation_allowed(
        Capability::Query,
        "default/_search",
        Method::Post,
        "default"
    ));
    assert!(!operation_allowed(
        Capability::Query,
        "default/_bulk",
        Method::Post,
        "default"
    ));
    assert!(operation_allowed(
        Capability::Dashboard,
        "default/dashboards",
        Method::Post,
        "default"
    ));
    assert!(!operation_allowed(
        Capability::Dashboard,
        "default/users",
        Method::Get,
        "default"
    ));
    assert!(!operation_allowed(
        Capability::Dashboard,
        "default/_search",
        Method::Post,
        "default"
    ));
    for (method, path) in [
        (Method::Get, "default/users"),
        (Method::Get, "default/roles"),
        (Method::Get, "default/tokens"),
        (Method::Put, "default/settings"),
        (Method::Post, "default/v1/logs"),
        (Method::Delete, "default/dashboards/governed"),
        (Method::Post, "other/dashboards"),
    ] {
        assert!(!operation_allowed(
            Capability::Dashboard,
            path,
            method,
            "default"
        ));
    }
    assert!(!operation_allowed(
        Capability::Ingest,
        "default/_search",
        Method::Post,
        "default"
    ));
    assert!(operation_allowed(
        Capability::Ingest,
        "default/v1/logs",
        Method::Post,
        "default"
    ));
    assert!(!operation_allowed(
        Capability::Ingest,
        "default/_bulk",
        Method::Post,
        "default"
    ));
}

#[test]
fn each_fault_of_a_policy_has_its_message() {
    let fault = |change: fn(&mut AutomationPolicy)| {
        let mut changed = policy();
        change(&mut changed);
        validate_policy(&changed, "default").unwrap_err()
    };
    assert_eq!(
        fault(|p| p.schema = "v2".to_string()),
        "Scoped automation policy schema is unsupported"
    );
    assert_eq!(
        fault(|p| p.organization = "Other".to_string()),
        "Scoped automation policy organization does not match"
    );
    for change in [
        (|p| p.max_time_range_micros = 999_999) as fn(&mut AutomationPolicy),
        |p| p.max_time_range_micros = 86_400_000_001,
        |p| p.max_result_size = 0,
        |p| p.max_result_size = 101,
    ] {
        assert_eq!(fault(change), "Scoped automation query bounds are invalid");
    }
    assert_eq!(
        fault(|p| p.query_templates.clear()),
        "Scoped automation query template count is invalid"
    );
    assert_eq!(
        fault(|p| {
            let template = p.query_templates[0].clone();
            p.query_templates = (0..65)
                .map(|i| QueryTemplate { id: format!("t{i}"), ..template.clone() })
                .collect();
        }),
        "Scoped automation query template count is invalid"
    );
    for change in [
        (|p| p.query_templates[0].id = "Upper".to_string()) as fn(&mut AutomationPolicy),
        |p| p.query_templates[0].id = String::new(),
        |p| p.query_templates.push(p.query_templates[0].clone()),
        |p| p.query_templates[0].signal = "events".to_string(),
        |p| p.query_templates[0].sql = "select count(*) from t".to_string(),
        |p| p.query_templates[0].sql = "SELECT max(x) FROM t".to_string(),
        |p| p.query_templates[0].sql = "SELECT count(*) FROM t; DROP".to_string(),
        |p| p.query_templates[0].sql = "SELECT count(a) FROM (SELECT  * FROM t)".replace("  ", " "),
        |p| p.query_templates[0].sql = "SELECT count(a) FROM t WHERE x = '{{other}}'".to_string(),
        |p| p.query_templates[0].sql = format!("SELECT count(a) FROM {}", "t".repeat(4096)),
    ] {
        assert_eq!(fault(change), "Scoped automation query template is unsafe");
    }
    for change in [
        (|p| p.dashboards.clear()) as fn(&mut AutomationPolicy),
        |p| p.dashboards.push(p.dashboards[0].clone()),
        |p| p.dashboards[0].title = "Telemetry".to_string(),
        |p| p.dashboards[0].title = "Creator Signal \n".to_string(),
        |p| p.dashboards[0].title = format!("Creator Signal {}", "x".repeat(160)),
        |p| p.dashboards[0].body_sha256 = "a".repeat(63),
        |p| p.dashboards[0].body_sha256 = "g".repeat(64),
    ] {
        assert_eq!(
            fault(change),
            "Scoped automation dashboard title allowlist is invalid"
        );
    }
    let mut capital = policy();
    capital.dashboards[0].body_sha256 = "A".repeat(64);
    assert!(validate_policy(&capital, "default").is_ok());
}

#[test]
fn organizations_have_plain_names() {
    assert!(valid_org("creator_signal-1"));
    assert!(valid_org(&"a".repeat(64)));
    assert!(!valid_org(&"a".repeat(65)));
    assert!(!valid_org(""));
    assert!(!valid_org("a/b"));
    assert!(!valid_org("\u{e4}"));
}

#[test]
fn reserved_identities_are_exactly_three() {
    assert_eq!(capability("creator-signal-ingest"), Some(Capability::Ingest));
    assert_eq!(capability("creator-signal-query"), Some(Capability::Query));
    assert_eq!(
        capability("creator-signal-dashboard-reconciler"),
        Some(Capability::Dashboard)
    );
    assert_eq!(capability("Creator-Signal-Ingest"), None);
    assert_eq!(capability("root@example.com"), None);
    for each in [Capability::Ingest, Capability::Query, Capability::Dashboard] {
        assert_eq!(capability(each.identity()), Some(each));
    }
}

#[test]
fn methods_go_by_their_names() {
    assert_eq!(Method::from_name("GET"), Method::Get);
    assert_eq!(Method::from_name("POST"), Method::Post);
    assert_eq!(Method::from_name("PUT"), Method::Put);
    assert_eq!(Method::from_name("DELETE"), Method::Delete);
    assert_eq!(Method::from_name("get"), Method::Other);
    assert_eq!(Method::from_name("PATCH"), Method::Other);
}

#[test]
fn dashboards_are_read_and_replaced_by_identifier() {
    let allowed = |path: &str, method| {
        operation_allowed(Capability::Dashboard, path, method, "default")
    };
    assert!(allowed("default/dashboards", Method::Get));
    assert!(!allowed("default/dashboards", Method::Put));
    assert!(allowed("default/dashboards/a_b-1", Method::Get));
    assert!(allowed("default/dashboards/a_b-1", Method::Put));
    assert!(!allowed("default/dashboards/a_b-1", Method::Post));
    assert!(!allowed("default/dashboards/", Method::Get));
    assert!(!allowed("default/dashboards/a/b", Method::Get));
    assert!(allowed(&format!("default/dashboards/{}", "x".repeat(128)), Method::Get));
    assert!(!allowed(&format!("default/dashboards/{}", "x".repeat(129)), Method::Get));
}

#[test]
fn paths_of_secrets_are_fixed() {
    assert_eq!(names_along("/run/./secrets//x"), ["run", "secrets", "x"]);
    assert!(fixed_secret_path("/run/secrets/token"));
    assert!(fixed_secret_path("/run//secrets/./token/"));
    assert!(fixed_secret_path("/run/creator-signal-secrets/token"));
    assert!(!fixed_secret_path("run/secrets/token"));
    assert!(!fixed_secret_path("/run/secrets"));
    assert!(!fixed_secret_path("/run/secrets/a/b"));
    assert!(!fixed_secret_path("/run/secrets/a..b"));
    assert!(!fixed_secret_path("/run/secretsx/token"));
    assert!(!fixed_secret_path("/etc/secrets/token"));
    assert!(fixed_policy_path("/run/secrets/a/b"));
    assert!(fixed_policy_path("/run/creator-signal/repository-configs/openobserve/policy.json"));
    assert!(!fixed_policy_path("/run/creator-signal/repository-configs/policy.json"));
    assert!(!fixed_policy_path("/run/secrets/../x"));
}

#[test]
fn credentials_are_bounded() {
    let read = |content: Option<&str>| read_bounded_secret("/run/secrets/token", content);
    let forbidden = |message: &str| Err(AuthError::Forbidden(message.to_string()));
    let good = "x".repeat(32);
    assert_eq!(read(Some(&format!("\n {good}\t"))), Ok(good.clone()));
    assert_eq!(read(Some(&"x".repeat(256))), Ok("x".repeat(256)));
    assert_eq!(
        read_bounded_secret("/tmp/token", Some(&good)),
        forbidden("Scoped automation credential path is invalid")
    );
    assert_eq!(read(None), forbidden("Scoped automation credential is unavailable"));
    for bad in ["x".repeat(31), "x".repeat(257), format!("{} {}", "x".repeat(20), "y".repeat(20))] {
        assert_eq!(read(Some(&bad)), forbidden("Scoped automation credential is invalid"));
    }
    // The bounds are on bytes.
    assert_eq!(read(Some(&"\u{e4}".repeat(16))), Ok("\u{e4}".repeat(16)));
}

#[test]
fn a_reserved_identity_is_let_in_with_its_own_password() {
    let response = validate_automation_credentials(
        QUERY_IDENTITY,
        &"q".repeat(32),
        "/default/_search",
        Method::Post,
        &settings(),
        &files(),
    )
    .unwrap()
    .unwrap();
    assert!(response.is_valid && response.is_internal_user);
    assert_eq!(response.user_email, QUERY_IDENTITY);
    assert_eq!(response.user_name, QUERY_IDENTITY);
    assert_eq!(response.given_name, QUERY_IDENTITY);
    assert_eq!(response.family_name, "");
    assert_eq!(response.user_role, Some(UserRole::Viewer));
    for (identity, password, path, role) in [
        (INGEST_IDENTITY, "i", "default/v1/traces", UserRole::ServiceAccount),
        (DASHBOARD_IDENTITY, "d", "default/dashboards", UserRole::Editor),
    ] {
        let response = validate_automation_credentials(
            identity,
            &password.repeat(32),
            path,
            Method::Post,
            &settings(),
            &files(),
        );
        assert_eq!(response.unwrap().unwrap().user_role, Some(role));
    }
}

#[test]
fn a_password_serves_one_identity_only() {
    for (identity, path) in [
        (INGEST_IDENTITY, "default/v1/logs"),
        (QUERY_IDENTITY, "default/_search"),
        (DASHBOARD_IDENTITY, "default/dashboards"),
    ] {
        let admitted = ["i", "q", "d"]
            .iter()
            .filter(|letter| {
                validate_automation_credentials(
                    identity,
                    &letter.repeat(32),
                    path,
                    Method::Post,
                    &settings(),
                    &files(),
                )
                .unwrap()
                .is_ok()
            })
            .count();
        assert_eq!(admitted, 1);
    }
}

#[test]
fn reserved_identities_fail_closed() {
    let validate = |user: &str, settings: &AutomationSettings, files: &SecretFiles| {
        validate_automation_credentials(
            user,
            "wrong",
            "default/_search",
            Method::Post,
            settings,
            files,
        )
    };
    assert!(validate("someone@example.com", &settings(), &files()).is_none());
    let error = |settings: &AutomationSettings, files: &SecretFiles| {
        validate(QUERY_IDENTITY, settings, files).unwrap().unwrap_err()
    };
    let forbidden = |message: &str| AuthError::Forbidden(message.to_string());
    assert_eq!(
        error(&settings(), &files()),
        AuthError::Unauthorized("Unauthorized Access".to_string())
    );
    let mut off = settings();
    off.enabled = false;
    assert_eq!(error(&off, &files()), forbidden("Scoped automation is unavailable"));
    let mut nowhere = settings();
    nowhere.org = "a b".to_string();
    assert_eq!(error(&nowhere, &files()), forbidden("Scoped automation is unavailable"));
    let mut elsewhere = settings();
    elsewhere.org = "other".to_string();
    assert_eq!(
        error(&elsewhere, &files()),
        forbidden("Scoped automation identity is not permitted for this operation")
    );
    let mut missing = files();
    missing.dashboard = None;
    assert_eq!(
        error(&settings(), &missing),
        forbidden("Scoped automation credential is unavailable")
    );
    let mut same = files();
    same.dashboard = same.ingest.clone();
    assert_eq!(
        error(&settings(), &same),
        forbidden("Scoped automation credentials must be distinct")
    );
    assert_eq!(
        admit_operation(QUERY_IDENTITY, "/default/_search", Method::Post, &settings()),
        Some(Ok(Capability::Query))
    );
}

#[test]
fn a_policy_is_loaded_or_refused() {
    let load = |read: PolicyRead| load_automation_policy(&settings(), read);
    assert_eq!(policy_path(&settings()), Ok("/run/secrets/policy.json".to_string()));
    assert_eq!(
        load(PolicyRead::Read { size: 1, decoded: Some(policy()) }),
        Ok(policy())
    );
    assert_eq!(
        load(PolicyRead::Unreadable).unwrap_err(),
        "Scoped automation policy is unavailable"
    );
    for size in [0, MAX_POLICY_BYTES + 1] {
        assert_eq!(
            load(PolicyRead::Read { size, decoded: Some(policy()) }).unwrap_err(),
            "Scoped automation policy size is invalid"
        );
    }
    assert_eq!(
        load(PolicyRead::Read { size: MAX_POLICY_BYTES, decoded: None }).unwrap_err(),
        "Scoped automation policy is invalid"
    );
    let mut other = policy();
    other.organization = "other".to_string();
    assert_eq!(
        load(PolicyRead::Read { size: 1, decoded: Some(other) }).unwrap_err(),
        "Scoped automation policy organization does not match"
    );
    let mut misplaced = settings();
    misplaced.policy_file = "/tmp/policy.json".to_string();
    assert_eq!(
        load_automation_policy(&misplaced, PolicyRead::Unreadable).unwrap_err(),
        "Scoped automation policy path is invalid"
    );
}

#[test]
fn templates_have_known_places_only() {
    assert!(placeholders_are_supported("no places"));
    assert!(placeholders_are_supported("{{canary}} {{release}}{{environment}}"));
    assert!(!placeholders_are_supported("{{canary"));
    assert!(!placeholders_are_supported("canary}}"));
    assert!(!placeholders_are_supported("{{ canary }}"));
    assert!(!placeholders_are_supported("{{{canary}}}"));
}

#[test]
fn templates_become_anchored_patterns() {
    assert_eq!(
        template_regex("a.b = '{{canary}}'"),
        Ok("^a\\.b = '[a-f0-9]{32}'$".to_string())
    );
    assert_eq!(
        template_regex("{{release}}/{{environment}}"),
        Ok("^[a-f0-9]{40}/[a-z0-9][a-z0-9-]{0,31}$".to_string())
    );
    assert_eq!(template_regex("{{other}}"), Err(()));
    assert_eq!(template_regex("{{canary"), Err(()));
    assert_eq!(template_regex("a}}"), Err(()));
}

#[test]
fn templates_of_every_allowed_length_compile() {
    for slot in ["{{canary}}", "{{release}}", "{{environment}}", "."] {
        let template = slot.repeat(MAX_TEMPLATE_BYTES / slot.len());
        assert!(placeholders_are_supported(&template));
        assert!(template_regex(&template).is_ok());
    }
    let release = "a".repeat(40);
    let template = "{{release}}".repeat(MAX_TEMPLATE_BYTES / 11);
    assert!(template_matches(&template, &release.repeat(MAX_TEMPLATE_BYTES / 11)));
    assert!(!template_matches(&template, &release));
    // One that is far longer has no expression.
    assert_eq!(template_regex(&"{{release}}".repeat(100_000)), Err(()));
}

#[test]
fn templates_match_what_fills_them() {
    let canary = "0123456789abcdef".repeat(2);
    assert!(template_matches("id = '{{canary}}'", &format!("id = '{canary}'")));
    assert!(!template_matches("id = '{{canary}}'", &format!("id = '{canary}' OR 1")));
    assert!(!template_matches("id = '{{canary}}'", &format!(" id = '{canary}'")));
    assert!(!template_matches("id = '{{canary}}'", &format!("id = '{}'", canary.to_uppercase())));
    assert!(template_matches("{{environment}}", "prod-1"));
    assert!(!template_matches("{{environment}}", "-prod"));
    assert!(!template_matches("{{environment}}", &"p".repeat(33)));
    assert!(template_matches("a+b (c)", "a+b (c)"));
    assert!(!template_matches("a+b (c)", "aab (c)"));
    assert!(!template_matches("a", "a\n"));
    assert!(!template_matches("{{other}}", "{{other}}"));
}
