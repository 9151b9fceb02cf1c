use axum::http::Uri;
use creator_signal_auth::automation::{Method, DASHBOARD_IDENTITY, INGEST_IDENTITY, QUERY_IDENTITY};
use creator_signal_auth::json::{Json, JsonNumber};
use creator_signal_auth::policy::{
    AutomationPolicy, DashboardDefinition, QueryTemplate, POLICY_SCHEMA,
};
use creator_signal_auth::scoped_automation::{
    dashboard_query_allowed, filter_dashboard_body, filter_dashboard_value, matching_template,
    query_type, scoped_automation_middleware, validate_dashboard_request, validate_query_request,
    ScopedAction, ScopedEvent, ScopedRequest, ScopedState, MAX_DASHBOARD_BODY, MAX_QUERY_BODY,
};
use serde_json::Value;
use sha2::{Digest, Sha256};

fn policy(body: &[u8]) -> AutomationPolicy {
    AutomationPolicy {
        schema: POLICY_SCHEMA.to_string(),
        organization: "default".to_string(),
        max_time_range_micros: 600_000_000,
        max_result_size: 10,
        query_templates: vec![QueryTemplate {
            id: "canary-count".to_string(),
            signal: "logs".to_string(),
            sql: "SELECT count(*) AS matches FROM \"default\" WHERE creator_signal_canary_id = '{{canary}}'".to_string(),
        }],
        dashboards: vec![DashboardDefinition {
            title: "Creator Signal 00 - Telemetry".to_string(),
            body_sha256: format!("{:x}", Sha256::digest(body)),
        }],
    }
}

fn object(fields: Vec<(&str, Value)>) -> Value {
    Value::Object(
        fields
            .into_iter()
            .map(|(name, value)| (name.to_string(), value))
            .collect::<serde_json::Map<String, Value>>(),
    )
}

fn search() -> Value {
    object(vec![
        (
            "query",
            object(vec![
                (
                    "sql",
                    Value::from(format!("SELECT count(*) AS matches FROM \"default\" WHERE creator_signal_canary_id = '{}'", "a".repeat(32))),
                ),
                ("start_time", Value::from(1_000_000)),
                ("end_time", Value::from(2_000_000)),
                ("from", Value::from(0)),
                ("size", Value::from(10)),
            ]),
        ),
        ("search_type", Value::from("ui")),
        ("timeout", Value::from(5)),
    ])
}

fn text(content: &str) -> Json {
    Json::Text(content.to_string())
}

fn fields(list: Vec<(&str, Json)>) -> Json {
    Json::Object(
        list.into_iter()
            .map(|(name, value)| (name.to_string(), value))
            .collect(),
    )
}

#[test]
fn aggregate_query_is_exact_and_bounded() {
    let policy = policy(b"{}");
    let uri: Uri = "/api/default/_search?type=logs".parse().unwrap();
    let valid = search();
    assert!(validate_query_request(
        uri.query(),
        Method::Post,
        &serde_json::to_vec(&valid).unwrap(),
        &policy
    ));
    let mut raw = valid.clone();
    raw["query"]["sql"] = Value::String("SELECT * FROM \"default\"".to_string());
    assert!(!validate_query_request(
        uri.query(),
        Method::Post,
        &serde_json::to_vec(&raw).unwrap(),
        &policy
    ));
    let mut unbounded = valid;
    unbounded["query"]["end_time"] = Value::from(900_000_000_i64);
    assert!(!validate_query_request(
        uri.query(),
        Method::Post,
        &serde_json::to_vec(&unbounded).unwrap(),
        &policy
    ));
}

#[test]
fn dashboard_mutation_requires_an_exact_governed_body() {
    let body = br#"{"title":"Creator Signal 00 - Telemetry","version":5}"#;
    let policy = policy(body);
    let uri: Uri = "/api/default/dashboards".parse().unwrap();
    assert!(validate_dashboard_request(
        uri.query(),
        Method::Post,
        body,
        &policy
    ));
    assert!(!validate_dashboard_request(
        uri.query(),
        Method::Post,
        br#"{"title":"Creator Signal 00 - Telemetry","version":6}"#,
        &policy,
    ));
    assert!(!validate_dashboard_request(
        uri.query(),
        Method::Delete,
        &[],
        &policy
    ));
}

#[test]
fn dashboard_reads_return_only_governed_definitions() {
    let body = br#"{"title":"Creator Signal 00 - Telemetry","version":5}"#;
    let policy = policy(body);
    let list = fields(vec![(
        "dashboards",
        Json::Array(vec![
            fields(vec![
                ("title", text("Creator Signal 00 - Telemetry")),
                ("dashboard_id", text("governed")),
            ]),
            fields(vec![
                ("title", text("Unrelated operator dashboard")),
                ("dashboard_id", text("unrelated")),
            ]),
        ]),
    )]);
    let filtered = filter_dashboard_value(list, true, &policy).unwrap();
    match filtered.get("dashboards") {
        Some(Json::Array(dashboards)) => {
            assert_eq!(dashboards.len(), 1);
            assert_eq!(dashboards[0].text_field("dashboard_id"), Some("governed"));
        }
        other => panic!("{other:?}"),
    }
    assert!(
        filter_dashboard_value(
            fields(vec![("title", text("Unrelated operator dashboard"))]),
            false,
            &policy,
        )
        .is_none()
    );
    assert!(
        filter_dashboard_value(
            fields(vec![(
                "v5",
                fields(vec![("title", text("Creator Signal 00 - Telemetry"))]),
            )]),
            false,
            &policy,
        )
        .is_some()
    );
}

#[test]
fn every_bound_of_a_search_counts() {
    let policy = policy(b"{}");
    let allowed = |query: Option<&str>, method: Method, body: &Value| {
        validate_query_request(query, method, &serde_json::to_vec(body).unwrap(), &policy)
    };
    assert!(allowed(Some("type=logs"), Method::Post, &search()));
    assert!(!allowed(Some("type=logs"), Method::Get, &search()));
    assert!(!allowed(Some("type=metrics"), Method::Post, &search()));
    assert!(!allowed(Some("type=logs&x=1"), Method::Post, &search()));
    assert!(!allowed(Some("kind=logs"), Method::Post, &search()));
    assert!(!allowed(None, Method::Post, &search()));
    let changed = |change: fn(&mut Value)| {
        let mut body = search();
        change(&mut body);
        allowed(Some("type=logs"), Method::Post, &body)
    };
    assert!(changed(|b| b["timeout"] = Value::from(10)));
    assert!(changed(|b| b["query"]["size"] = Value::from(1)));
    assert!(changed(|b| b["query"]["end_time"] = Value::from(601_000_000)));
    assert!(!changed(|b| b["timeout"] = Value::from(11)));
    assert!(!changed(|b| b["timeout"] = Value::from(0)));
    assert!(!changed(|b| b["timeout"] = Value::from(-1)));
    assert!(!changed(|b| b["timeout"] = Value::from("5")));
    assert!(!changed(|b| b["search_type"] = Value::from("api")));
    assert!(!changed(|b| b["extra"] = Value::Null));
    assert!(!changed(|b| b["query"]["extra"] = Value::Null));
    assert!(!changed(|b| b["query"]["from"] = Value::from(1)));
    assert!(!changed(|b| b["query"]["size"] = Value::from(0)));
    assert!(!changed(|b| b["query"]["size"] = Value::from(11)));
    assert!(!changed(|b| b["query"]["start_time"] = Value::from(0)));
    assert!(!changed(|b| b["query"]["end_time"] = Value::from(1_000_000)));
    assert!(!changed(|b| b["query"]["end_time"] = Value::from(601_000_001)));
    assert!(!changed(|b| b["query"] = Value::Null));
    assert!(!changed(|b| *b = Value::from(1)));
    assert!(!validate_query_request(Some("type=logs"), Method::Post, b"{", &policy));
}

#[test]
fn what_is_searched_counts() {
    let mut policy = policy(b"{}");
    policy.query_templates[0].sql =
        "SELECT {{environment}}, count(*) FROM t WHERE r = '{{release}}'".to_string();
    let allowed = |sql: String| {
        let mut body = search();
        body["query"]["sql"] = Value::from(sql);
        let body = serde_json::to_vec(&body).unwrap();
        validate_query_request(Some("type=logs"), Method::Post, &body, &policy)
    };
    let release = "0123456789".repeat(4);
    assert!(allowed(format!("SELECT prod, count(*) FROM t WHERE r = '{release}'")));
    assert!(!allowed(format!("SELECT prod, max(x) FROM t WHERE r = '{release}'")));
    assert!(!allowed(format!("SELECT prod;, count(*) FROM t WHERE r = '{release}'")));
    assert!(!allowed(format!("DELETE prod, count(*) FROM t WHERE r = '{release}'")));
}

#[test]
fn the_type_of_a_search_is_decoded() {
    assert_eq!(query_type(Some("type=lo%67s")), Some("logs".to_string()));
    assert_eq!(query_type(Some("type=a+b")), Some("a b".to_string()));
    assert_eq!(query_type(Some("type")), Some(String::new()));
    assert_eq!(query_type(Some("")), None);
    assert_eq!(query_type(None), None);
}

#[test]
fn a_template_serves_its_signal() {
    let policy = policy(b"{}");
    let sql = format!("SELECT count(*) AS matches FROM \"default\" WHERE creator_signal_canary_id = '{}'", "0".repeat(32));
    assert_eq!(
        matching_template(&policy, "logs", &sql).map(|template| template.id.as_str()),
        Some("canary-count")
    );
    assert!(matching_template(&policy, "traces", &sql).is_none());
    assert!(matching_template(&policy, "logs", &format!("{sql} ")).is_none());
}

#[test]
fn dashboard_queries_are_few() {
    assert!(dashboard_query_allowed(None, Method::Get));
    assert!(dashboard_query_allowed(Some("folder=default&hash=a_b-1"), Method::Put));
    assert!(dashboard_query_allowed(Some(""), Method::Put));
    assert!(!dashboard_query_allowed(Some(""), Method::Get));
    assert!(!dashboard_query_allowed(Some("folder=other"), Method::Put));
    assert!(!dashboard_query_allowed(Some("hash="), Method::Put));
    assert!(!dashboard_query_allowed(Some("hash=a%2Fb"), Method::Put));
    assert!(!dashboard_query_allowed(Some("other=1"), Method::Put));
}

#[test]
fn dashboard_reads_have_no_body() {
    let policy = policy(b"{}");
    assert!(validate_dashboard_request(None, Method::Get, &[], &policy));
    assert!(!validate_dashboard_request(None, Method::Get, b"{}", &policy));
    assert!(!validate_dashboard_request(Some("folder=default"), Method::Get, &[], &policy));
    assert!(!validate_dashboard_request(None, Method::Put, b"{}", &policy));
}

#[test]
fn bodies_of_responses_are_filtered() {
    let policy = policy(b"{}");
    let list = br#"{"dashboards":[{"title":"Creator Signal 00 - Telemetry","n":1.5},{"title":"Other"}],"a":-1}"#;
    assert_eq!(
        filter_dashboard_body(Some(list), true, &policy).as_deref(),
        Some(r#"{"a":-1,"dashboards":[{"n":1.5,"title":"Creator Signal 00 - Telemetry"}]}"#)
    );
    // Showing twice is showing once.
    let once = filter_dashboard_body(Some(list), true, &policy).unwrap();
    assert_eq!(
        filter_dashboard_body(Some(once.as_bytes()), true, &policy),
        Some(once)
    );
    assert_eq!(filter_dashboard_body(Some(br#"{"title":"Other"}"#), false, &policy), None);
    assert_eq!(filter_dashboard_body(Some(b"{}"), true, &policy), None);
    assert_eq!(filter_dashboard_body(Some(b"not json"), true, &policy), None);
    assert_eq!(filter_dashboard_body(None, true, &policy), None);
}

#[test]
fn numbers_of_a_value_are_told_apart() {
    let number = |n: JsonNumber| Json::Number(n);
    assert_eq!(number(JsonNumber::Unsigned(5)).as_unsigned(), Some(5));
    assert_eq!(number(JsonNumber::Unsigned(u64::MAX)).as_signed(), None);
    assert_eq!(number(JsonNumber::Negative(-5)).as_signed(), Some(-5));
    assert_eq!(number(JsonNumber::Negative(-5)).as_unsigned(), None);
    assert_eq!(number(JsonNumber::Float("1.5".to_string())).as_signed(), None);
}

fn run_to_request(identity: &str, policy: AutomationPolicy) -> (ScopedState, ScopedAction) {
    let (state, action) = scoped_automation_middleware(
        ScopedState::Arrived,
        ScopedEvent::Identity(identity.to_string()),
    );
    assert!(matches!(action, ScopedAction::LoadPolicy));
    scoped_automation_middleware(state, ScopedEvent::Policy(Ok(policy)))
}

fn dashboards_request(method: Method, path: &str, body: &[u8]) -> ScopedEvent {
    ScopedEvent::Request(Some(ScopedRequest {
        method,
        path: path.to_string(),
        query: None,
        body: body.to_vec(),
    }))
}

#[test]
fn other_identities_pass_unread() {
    for identity in ["", "someone", INGEST_IDENTITY] {
        let (_, action) = scoped_automation_middleware(
            ScopedState::Arrived,
            ScopedEvent::Identity(identity.to_string()),
        );
        assert!(matches!(action, ScopedAction::PassThrough));
    }
}

#[test]
fn dashboard_lists_are_shown_in_part() {
    let policy = policy(b"{}");
    let (state, action) = run_to_request(DASHBOARD_IDENTITY, policy.clone());
    assert!(matches!(action, ScopedAction::ReadRequest { limit } if limit == MAX_DASHBOARD_BODY));
    let (state, action) = scoped_automation_middleware(
        state,
        dashboards_request(Method::Get, "/api/default/dashboards", b""),
    );
    assert!(matches!(action, ScopedAction::Forward { .. }));
    let (state, action) = scoped_automation_middleware(state, ScopedEvent::Response(200));
    assert!(matches!(action, ScopedAction::ReadResponse { limit } if limit == MAX_DASHBOARD_BODY));
    let (_, action) = scoped_automation_middleware(
        state,
        ScopedEvent::ResponseBody(Some(br#"{"dashboards":[{"title":"Other"}]}"#.to_vec())),
    );
    match action {
        ScopedAction::ReplaceBody { body } => assert_eq!(body, r#"{"dashboards":[]}"#),
        other => panic!("{other:?}"),
    }
}

#[test]
fn failed_reads_and_writes_are_shown_as_they_are() {
    let body = br#"{"title":"Creator Signal 00 - Telemetry","version":5}"#;
    let policy = policy(body);
    let (state, _) = run_to_request(DASHBOARD_IDENTITY, policy.clone());
    let (state, _) = scoped_automation_middleware(
        state,
        dashboards_request(Method::Get, "/api/default/dashboards/x", b""),
    );
    let (_, action) = scoped_automation_middleware(state, ScopedEvent::Response(404));
    assert!(matches!(action, ScopedAction::ReturnResponse));
    let (state, _) = run_to_request(DASHBOARD_IDENTITY, policy);
    let (state, action) = scoped_automation_middleware(
        state,
        dashboards_request(Method::Post, "/api/default/dashboards", body),
    );
    assert!(matches!(action, ScopedAction::Forward { request } if request.body == body));
    let (_, action) = scoped_automation_middleware(state, ScopedEvent::Response(200));
    assert!(matches!(action, ScopedAction::ReturnResponse));
}

#[test]
fn requests_out_of_order_are_refused() {
    let (_, action) = scoped_automation_middleware(
        ScopedState::LoadingPolicy {
            subject: creator_signal_auth::scoped_automation::Subject::Query,
        },
        ScopedEvent::Policy(Err("unavailable".to_string())),
    );
    assert!(matches!(action, ScopedAction::Refuse));
    let (state, action) = run_to_request(QUERY_IDENTITY, policy(b"{}"));
    assert!(matches!(action, ScopedAction::ReadRequest { limit } if limit == MAX_QUERY_BODY));
    let (_, action) = scoped_automation_middleware(state, ScopedEvent::Request(None));
    assert!(matches!(action, ScopedAction::Refuse));
    let (state, _) = run_to_request(QUERY_IDENTITY, policy(b"{}"));
    let (_, action) = scoped_automation_middleware(
        state,
        dashboards_request(Method::Post, "/api/default/_search", b"{}"),
    );
    assert!(matches!(action, ScopedAction::Refuse));
    let (state, _) = run_to_request(DASHBOARD_IDENTITY, policy(b"{}"));
    let (state, _) = scoped_automation_middleware(
        state,
        dashboards_request(Method::Get, "/api/default/dashboards", b""),
    );
    let (state, _) = scoped_automation_middleware(state, ScopedEvent::Response(200));
    let (state, action) = scoped_automation_middleware(
        state,
        ScopedEvent::ResponseBody(Some(b"not json".to_vec())),
    );
    assert!(matches!(action, ScopedAction::Refuse));
    let (_, action) = scoped_automation_middleware(state, ScopedEvent::Response(200));
    assert!(matches!(action, ScopedAction::Refuse));
}

#[test]
fn an_allowed_search_is_handed_on() {
    let (state, _) = run_to_request(QUERY_IDENTITY, policy(b"{}"));
    let body = serde_json::to_vec(&search()).unwrap();
    let (state, action) = scoped_automation_middleware(
        state,
        ScopedEvent::Request(Some(ScopedRequest {
            method: Method::Post,
            path: "/api/default/_search".to_string(),
            query: Some("type=logs".to_string()),
            body: body.clone(),
        })),
    );
    assert!(matches!(action, ScopedAction::Forward { request } if request.body == body));
    let (_, action) = scoped_automation_middleware(state, ScopedEvent::Response(200));
    assert!(matches!(action, ScopedAction::ReturnResponse));
}
