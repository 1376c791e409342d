use notification_service::config::{parse_namespace_streams, Config, EnvVars, NamespaceStreamsIssue};
use notification_service::datetime::parse_datetime_to_iso;
use notification_service::formatter::{
    build_graylog_url, render_markdown, severity_emoji, status_emoji, url_encode_timestamp,
    url_encode_value,
};
use notification_service::json::JsonValue;
use notification_service::message_store;
use notification_service::models::alert::{Alert, AlertAnnotations, AlertLabels};
use notification_service::models::alert_with_incident::AlertWithIncident;
use notification_service::models::incident::Incident;
use notification_service::output::{
    message_url, messages_url, plan_delivery, post_outcome, post_result, record_post, PostFailure,
    SendAction, ZulipSendResponse, DRY_RUN_MESSAGE_ID,
};
use notification_service::datetime::UtcInstant;
use notification_service::processing::{enrich, enrich_at};
use notification_service::text::{decimal, parse_unsigned, trim};

// ---------------------------------------------------------------------------
// Builders
// ---------------------------------------------------------------------------

fn s(v: &str) -> JsonValue {
    JsonValue::String(v.to_string())
}

fn n(v: u64) -> JsonValue {
    JsonValue::Number(Some(v))
}

fn obj(fields: Vec<(&str, JsonValue)>) -> JsonValue {
    JsonValue::Object(fields.into_iter().map(|(k, v)| (k.to_string(), v)).collect())
}

fn config(keep: &str) -> Config {
    Config {
        port: 8080,
        keep_base_url: keep.to_string(),
        graylog_base_url: String::new(),
        environment_name: "test".to_string(),
        zulip_email: "bot@example.com".to_string(),
        zulip_api_key: "key".to_string(),
        zulip_host: "chat.example.com".to_string(),
        zulip_default_stream: "alerts".to_string(),
        zulip_namespace_streams: vec![("monitoring".to_string(), "devops-alerts".to_string())],
        zulip_enabled: true,
        message_ttl_days: 7,
        zulip_request_timeout_secs: 10,
    }
}

fn alert() -> Alert {
    Alert {
        id: "test-001".into(),
        name: "TestAlert".into(),
        status: "firing".into(),
        severity: "critical".into(),
        started_at: Some("2026-01-01 00:00:00".into()),
        firing_start_time: None,
        last_received: "2026-01-01T01:00:00Z".into(),
        firing_counter: 3,
        fingerprint: "abc123def456".into(),
        assignee: None,
        ends_at: Some("2026-01-01T02:00:00Z".into()),
        generator_url: Some("http://prometheus/graph".into()),
        description: None,
        rca_summary: None,
        correlated_parent_alert: None,
        correlated_parent_fingerprint: None,
        namespace: Some("monitoring".into()),
        labels: AlertLabels {
            pod: Some("my-pod".into()),
            reason: Some("OOMKilled".into()),
            container: None,
            app_name: None,
            instance: None,
            infrastructure: None,
            network: None,
        },
        annotations: AlertAnnotations {
            summary: Some("Pod is out of memory.".into()),
            runbook_url: None,
        },
    }
}

fn alert_payload() -> JsonValue {
    obj(vec![
        ("id", s("a-1")),
        ("name", s("KubePodCrashLooping")),
        ("status", s("firing")),
        ("severity", s("warning")),
        ("startedAt", s("2026-05-26 09:06:25.383000")),
        ("lastReceived", s("2026-05-26T09:10:00.000Z")),
        ("fingerprint", s("fp-1")),
        ("firingCounter", n(4)),
        ("assignee", JsonValue::Null),
        ("namespace", s("monitoring")),
        (
            "labels",
            obj(vec![("pod", s("web-0")), ("app_kubernetes_io_name", s("web"))]),
        ),
        ("annotations", obj(vec![("summary", s("Crash looping"))])),
    ])
}

// ---------------------------------------------------------------------------
// Text utilities
// ---------------------------------------------------------------------------

#[test]
fn trim_removes_unicode_white_space() {
    assert_eq!(trim("  \t value \u{3000}\n"), "value");
    assert_eq!(trim("   "), "");
    assert_eq!(trim("a b"), "a b");
}

#[test]
fn decimal_renders_numbers() {
    assert_eq!(decimal(0), "0");
    assert_eq!(decimal(3), "3");
    assert_eq!(decimal(1234567890), "1234567890");
    assert_eq!(decimal(u64::MAX), "18446744073709551615");
}

#[test]
fn parse_unsigned_follows_str_parse() {
    assert_eq!(parse_unsigned("8080", 65535), Some(8080));
    assert_eq!(parse_unsigned("+42", 65535), Some(42));
    assert_eq!(parse_unsigned("007", 65535), Some(7));
    assert_eq!(parse_unsigned("65535", 65535), Some(65535));
    assert_eq!(parse_unsigned("65536", 65535), None);
    assert_eq!(parse_unsigned("", 65535), None);
    assert_eq!(parse_unsigned("+", 65535), None);
    assert_eq!(parse_unsigned("-1", 65535), None);
    assert_eq!(parse_unsigned(" 1", 65535), None);
    assert_eq!(parse_unsigned("18446744073709551615", u64::MAX), Some(u64::MAX));
    assert_eq!(parse_unsigned("18446744073709551616", u64::MAX), None);
}

// ---------------------------------------------------------------------------
// JSON pointer
// ---------------------------------------------------------------------------

#[test]
fn pointer_follows_objects_and_arrays() {
    let v = obj(vec![
        ("a", obj(vec![("b", s("x"))])),
        ("list", JsonValue::Array(vec![s("zero"), s("one")])),
        ("a/b", s("slash")),
        ("m~n", s("tilde")),
        ("", s("empty key")),
    ]);
    assert!(matches!(v.pointer(""), Some(JsonValue::Object(_))));
    assert!(matches!(v.pointer("/a/b"), Some(JsonValue::String(t)) if t == "x"));
    assert!(matches!(v.pointer("/list/1"), Some(JsonValue::String(t)) if t == "one"));
    assert!(v.pointer("/list/01").is_none());
    assert!(v.pointer("/list/+1").is_none());
    assert!(v.pointer("/list/2").is_none());
    assert!(matches!(v.pointer("/a~1b"), Some(JsonValue::String(t)) if t == "slash"));
    assert!(matches!(v.pointer("/m~0n"), Some(JsonValue::String(t)) if t == "tilde"));
    assert!(matches!(v.pointer("/"), Some(JsonValue::String(t)) if t == "empty key"));
    assert!(v.pointer("a").is_none());
    assert!(v.pointer("/a/b/c").is_none());
}

// ---------------------------------------------------------------------------
// Payload validation
// ---------------------------------------------------------------------------

#[test]
fn alert_from_value_extracts_fields() {
    let a = Alert::from_value(&alert_payload()).unwrap();
    assert_eq!(a.id, "a-1");
    assert_eq!(a.name, "KubePodCrashLooping");
    assert_eq!(a.firing_counter, 4);
    assert_eq!(a.assignee, None);
    assert_eq!(a.started_at.as_deref(), Some("2026-05-26 09:06:25.383000"));
    assert_eq!(a.namespace.as_deref(), Some("monitoring"));
    assert_eq!(a.labels.pod.as_deref(), Some("web-0"));
    assert_eq!(a.labels.app_name.as_deref(), Some("web"));
    assert_eq!(a.labels.container, None);
    assert_eq!(a.annotations.summary.as_deref(), Some("Crash looping"));
    assert_eq!(a.generator_url, None);
}

#[test]
fn alert_from_value_lists_every_missing_field() {
    let v = obj(vec![
        ("id", s("a-1")),
        ("status", n(3)),
        ("firingCounter", s("4")),
        ("lastReceived", s("x")),
    ]);
    let missing = Alert::from_value(&v).unwrap_err();
    assert_eq!(
        missing,
        vec!["/name", "/status", "/severity", "/fingerprint", "/firingCounter", "/assignee"]
    );
}

fn payload_with_assignee(assignee: JsonValue) -> JsonValue {
    let mut fields = match alert_payload() {
        JsonValue::Object(f) => f,
        _ => unreachable!(),
    };
    for f in fields.iter_mut() {
        if f.0 == "assignee" {
            f.1 = assignee;
            break;
        }
    }
    JsonValue::Object(fields)
}

#[test]
fn alert_assignee_must_be_string_or_null() {
    let a = Alert::from_value(&payload_with_assignee(s("alice"))).unwrap();
    assert_eq!(a.assignee.as_deref(), Some("alice"));
    assert_eq!(
        Alert::from_value(&payload_with_assignee(JsonValue::Bool(true))).unwrap_err(),
        vec!["/assignee"]
    );
}

#[test]
fn incident_from_value_parses_counts() {
    let v = obj(vec![("id", s("i-1")), ("topic_name", s("db down")), ("alerts_count", s("12"))]);
    let i = Incident::from_value(&v).unwrap();
    assert_eq!(i.id, "i-1");
    assert_eq!(i.topic_name, "db down");
    assert_eq!(i.alerts_count, Some(12));
    let v = obj(vec![("id", s("i-1")), ("topic_name", s("t")), ("alerts_count", n(5))]);
    assert_eq!(Incident::from_value(&v).unwrap().alerts_count, Some(5));
    let v = obj(vec![("id", s("i-1")), ("topic_name", s("t")), ("alerts_count", s("many"))]);
    assert_eq!(Incident::from_value(&v).unwrap().alerts_count, None);
    assert_eq!(Incident::from_value(&obj(vec![])).unwrap_err(), vec!["/id", "/topic_name"]);
}

#[test]
fn alert_with_incident_combines_missing_fields() {
    let v = obj(vec![("incident_id", s("i-1"))]);
    let missing = AlertWithIncident::from_value(&v).unwrap_err();
    assert_eq!(
        missing,
        vec![
            "/id", "/name", "/status", "/severity", "/lastReceived", "/fingerprint",
            "/firingCounter", "/assignee", "/incident_name"
        ]
    );
    let mut fields = match alert_payload() {
        JsonValue::Object(f) => f,
        _ => unreachable!(),
    };
    fields.push(("incident_id".to_string(), s("i-1")));
    fields.push(("incident_name".to_string(), s("Outage")));
    let x = AlertWithIncident::from_value(&JsonValue::Object(fields)).unwrap();
    assert_eq!(x.alert.id, "a-1");
    assert_eq!(x.incident_id, "i-1");
    assert_eq!(x.incident_name, "Outage");
}

// ---------------------------------------------------------------------------
// Configuration
// ---------------------------------------------------------------------------

fn no_vars() -> EnvVars {
    EnvVars {
        port: None,
        keep_base_url: None,
        graylog_base_url: None,
        environment_name: None,
        zulip_email: None,
        zulip_api_key: None,
        zulip_host: None,
        zulip_default_stream: None,
        zulip_namespace_streams: None,
        zulip_enabled: None,
        message_ttl_days: None,
        zulip_request_timeout_secs: None,
    }
}

#[test]
fn config_defaults() {
    let (c, issue) = Config::from_env_vars(&no_vars());
    assert!(matches!(issue, Some(NamespaceStreamsIssue::Missing)));
    assert_eq!(c.port, 8080);
    assert!(c.zulip_enabled);
    assert_eq!(c.message_ttl_days, 7);
    assert_eq!(c.zulip_request_timeout_secs, 10);
    assert_eq!(c.keep_base_url, "");
    assert!(c.zulip_namespace_streams.is_empty());
    assert!(!c.zulip_configured());
}

#[test]
fn config_reads_values() {
    let mut vars = no_vars();
    vars.port = Some("9000".into());
    vars.keep_base_url = Some("  https://keep.example.com/ ".into());
    vars.environment_name = Some("staging".into());
    vars.zulip_enabled = Some(" FALSE ".into());
    vars.message_ttl_days = Some(" 3 ".into());
    vars.zulip_request_timeout_secs = Some("soon".into());
    vars.zulip_namespace_streams = Some(r#"{"monitoring": "devops-alerts"}"#.into());
    let (c, issue) = Config::from_env_vars(&vars);
    assert!(issue.is_none());
    assert_eq!(c.port, 9000);
    assert_eq!(c.keep_base_url, "https://keep.example.com/");
    assert!(!c.zulip_enabled);
    assert_eq!(c.message_ttl_days, 3);
    assert_eq!(c.zulip_request_timeout_secs, 10);
    assert_eq!(c.zulip_topic(), "alerts-staging");
    assert_eq!(c.stream_for_namespace(Some("monitoring")), "devops-alerts");
    vars.port = Some(" 9000".into());
    vars.zulip_enabled = Some("no".into());
    vars.zulip_namespace_streams = Some("[1, 2]".into());
    let (c, issue) = Config::from_env_vars(&vars);
    assert!(matches!(issue, Some(NamespaceStreamsIssue::InvalidJson(_))));
    assert!(c.zulip_namespace_streams.is_empty());
    assert_eq!(c.port, 8080);
    assert!(c.zulip_enabled);
}

#[test]
fn namespace_streams_parse() {
    let (pairs, issue) = parse_namespace_streams(r#"{"a": "x", "b": "y"}"#);
    assert!(issue.is_none());
    let mut pairs = pairs;
    pairs.sort();
    assert_eq!(pairs, vec![("a".to_string(), "x".to_string()), ("b".to_string(), "y".to_string())]);
    let (pairs, issue) = parse_namespace_streams("not json");
    assert!(matches!(issue, Some(NamespaceStreamsIssue::InvalidJson(ref t)) if !t.is_empty()));
    assert!(pairs.is_empty());
    let (pairs, issue) = parse_namespace_streams(r#"{"a": 1}"#);
    assert!(matches!(issue, Some(NamespaceStreamsIssue::InvalidJson(_))));
    assert!(pairs.is_empty());
    let (pairs, issue) = parse_namespace_streams("");
    assert!(matches!(issue, Some(NamespaceStreamsIssue::Missing)));
    assert!(pairs.is_empty());
}

#[test]
fn keep_urls_trim_trailing_slashes() {
    let c = config("https://keep.example.com//");
    assert_eq!(
        c.keep_alert_url("fp").as_deref(),
        Some("https://keep.example.com/alerts/feed?alertPayloadFingerprint=fp")
    );
    assert_eq!(
        c.keep_incident_url("42").as_deref(),
        Some("https://keep.example.com/incidents/42/alerts")
    );
    assert_eq!(config("").keep_alert_url("fp"), None);
    assert_eq!(config("").keep_incident_url("42"), None);
}

#[test]
fn stream_routing_falls_back_to_default() {
    let c = config("");
    assert_eq!(c.stream_for_namespace(Some("monitoring")), "devops-alerts");
    assert_eq!(c.stream_for_namespace(Some("other")), "alerts");
    assert_eq!(c.stream_for_namespace(None), "alerts");
}

#[test]
fn zulip_configured_needs_all_credentials() {
    let mut c = config("");
    assert!(c.zulip_configured());
    c.zulip_api_key = String::new();
    assert!(!c.zulip_configured());
}

// ---------------------------------------------------------------------------
// Rendering
// ---------------------------------------------------------------------------

#[test]
fn emoji_are_case_insensitive() {
    assert_eq!(severity_emoji("CRITICAL"), "🔴");
    assert_eq!(severity_emoji("Warning"), "🟡");
    assert_eq!(severity_emoji("info"), "🔵");
    assert_eq!(severity_emoji("page"), "🚨");
    assert_eq!(severity_emoji("other"), "⚪");
    assert_eq!(status_emoji("FIRING"), "🔥");
    assert_eq!(status_emoji("resolved"), "✅");
    assert_eq!(status_emoji("Acknowledged"), "👀");
    assert_eq!(status_emoji("suppressed"), "🔕");
    assert_eq!(status_emoji("pending"), "❓");
}

#[test]
fn url_encoding() {
    assert_eq!(url_encode_value("a b\"c%d+e&f=g#h"), "a+b%22c%25d%2Be%26f%3Dg%23h");
    assert_eq!(url_encode_timestamp("2026-01-01T00:00:00.000Z"), "2026-01-01T00%3A00%3A00.000Z");
}

#[test]
fn timestamps_are_normalised() {
    assert_eq!(
        parse_datetime_to_iso("2026-05-26 09:06:25.383000").as_deref(),
        Some("2026-05-26T09:06:25.383Z")
    );
    assert_eq!(
        parse_datetime_to_iso("2026-05-26T09:06:25.265Z").as_deref(),
        Some("2026-05-26T09:06:25.265Z")
    );
    assert_eq!(
        parse_datetime_to_iso("2026-05-26T11:06:25+02:00").as_deref(),
        Some("2026-05-26T09:06:25.000Z")
    );
    assert_eq!(
        parse_datetime_to_iso("2026-05-26T09:06:25.383000").as_deref(),
        Some("2026-05-26T09:06:25.383Z")
    );
    assert_eq!(parse_datetime_to_iso("yesterday"), None);
}

#[test]
fn full_message_layout() {
    let mut c = config("");
    c.zulip_namespace_streams = Vec::new();
    let msg = render_markdown(&alert(), &c, "2026-01-01T03:00:00.000Z");
    assert_eq!(
        msg,
        "🔴 **TestAlert** · 🔥 firing\n\
         \n\
         *Pod is out of memory.*\n\
         **Details:**\n\
         - **Occurrences:** 3\n\
         - **Assignee:** —\n\
         - **Reason:** `OOMKilled`\n\
         - **Pod:** `my-pod`\n\
         - **Start time:** `2026-01-01T00:00:00.000Z`\n\
         - **End time:** `2026-01-01T02:00:00.000Z`\n\
         \n\
         📊 [Prometheus](http://prometheus/graph)\n"
    );
}

#[test]
fn description_shown_only_when_different_from_summary() {
    let c = config("");
    let mut a = alert();
    a.description = Some("Pod is out of memory.".into());
    let msg = render_markdown(&a, &c, "2026-01-01T03:00:00.000Z");
    assert!(msg.contains("\n\n*Pod is out of memory.*\n**Details:**\n"));
    a.description = Some("Container exceeded its limit.".into());
    let msg = render_markdown(&a, &c, "2026-01-01T03:00:00.000Z");
    assert!(msg.contains(
        "\n\n*Pod is out of memory.*\n\nContainer exceeded its limit.\n**Details:**\n"
    ));
}

#[test]
fn assignee_and_header_link() {
    let c = config("https://keep.example.com");
    let mut a = alert();
    a.assignee = Some("alice".into());
    let msg = render_markdown(&a, &c, "2026-01-01T03:00:00.000Z");
    assert!(msg.starts_with(
        "🔴 **[TestAlert](https://keep.example.com/alerts/feed?alertPayloadFingerprint=abc123def456)** · 🔥 firing\n"
    ));
    assert!(msg.contains("- **Assignee:** alice\n"));
    a.assignee = Some(String::new());
    let msg = render_markdown(&a, &c, "2026-01-01T03:00:00.000Z");
    assert!(msg.contains("- **Assignee:** —\n"));
}

#[test]
fn graylog_url_exact() {
    let mut c = config("");
    c.graylog_base_url = "https://graylog.example.com/search/abc?q=".into();
    let mut a = alert();
    a.labels.app_name = Some("my app".into());
    assert_eq!(
        build_graylog_url(&a, &c, "2026-01-01T03:00:00.000Z").as_deref(),
        Some(
            "https://graylog.example.com/search/abc?q=namespace%3A+%22monitoring%22+AND+label_name%3A+%22my+app%22&rangetype=absolute&from=2026-01-01T00%3A00%3A00.000Z&to=2026-01-01T03%3A00%3A00.000Z"
        )
    );
    a.started_at = None;
    a.firing_start_time = Some("2026-01-01T00:30:00Z".into());
    assert!(build_graylog_url(&a, &c, "2026-01-01T03:00:00.000Z")
        .unwrap()
        .contains("from=2026-01-01T00%3A30%3A00.000Z"));
    a.firing_start_time = Some("not a time".into());
    assert_eq!(build_graylog_url(&a, &c, "2026-01-01T03:00:00.000Z"), None);
    let msg = render_markdown(&alert(), &c, "2026-01-01T03:00:00.000Z");
    assert!(!msg.contains("Graylog"));
}

#[test]
fn footer_joins_links() {
    let c = config("");
    let mut a = alert();
    a.annotations.runbook_url = Some("https://runbooks/x".into());
    let msg = render_markdown(&a, &c, "2026-01-01T03:00:00.000Z");
    assert!(msg.ends_with(
        "\n📊 [Prometheus](http://prometheus/graph) · 📖 [Runbook](https://runbooks/x)\n"
    ));
    a.generator_url = None;
    a.annotations.runbook_url = None;
    let msg = render_markdown(&a, &c, "2026-01-01T03:00:00.000Z");
    assert!(msg.ends_with("000Z`\n\n\n"));
}

#[test]
fn effective_start_falls_back() {
    let mut a = alert();
    assert_eq!(a.effective_started_at(), "2026-01-01 00:00:00");
    a.started_at = None;
    a.firing_start_time = Some("2026-01-01T00:30:00Z".into());
    assert_eq!(a.effective_started_at(), "2026-01-01T00:30:00Z");
    a.firing_start_time = None;
    assert!(parse_datetime_to_iso(&a.effective_started_at()).is_some());
}

// ---------------------------------------------------------------------------
// Message store and delivery decisions
// ---------------------------------------------------------------------------

#[test]
fn store_insert_get_and_evict() {
    let mut store = message_store::new();
    assert_eq!(store.len(), 0);
    assert_eq!(store.get("fp"), None);
    store.insert("fp".into(), 17, 100);
    store.insert("other".into(), 18, 150);
    assert_eq!(store.get("fp"), Some(17));
    assert_eq!(store.len(), 2);
    store.insert("fp".into(), 19, 160);
    assert_eq!(store.get("fp"), Some(19));
    assert_eq!(store.len(), 2);
    // At time 200 with a TTL of 50: "other" (age 50) is not older than the
    // TTL and stays; at 201 it is older and expires; "fp" (age 41) stays.
    assert_eq!(store.evict_expired(200, 50), 0);
    assert_eq!(store.get("other"), Some(18));
    assert_eq!(store.evict_expired(201, 50), 1);
    assert_eq!(store.get("other"), None);
    assert_eq!(store.get("fp"), Some(19));
    assert_eq!(store.evict_expired(201, 50), 0);
    // A clock reading before the insertion counts as no time elapsed.
    assert_eq!(store.evict_expired(10, 0), 0);
    assert_eq!(store.evict_expired(1000, 1), 1);
    assert_eq!(store.len(), 0);
}

#[test]
fn first_delivery_posts_then_edits() {
    let c = config("");
    let mut store = message_store::new();
    let a = alert();
    let plan = plan_delivery(&a, &c, &store, "msg".into());
    assert!(!plan.dry_run);
    match &plan.action {
        SendAction::Post { stream, topic } => {
            assert_eq!(stream, "devops-alerts");
            assert_eq!(topic, "alerts-test");
        }
        other => panic!("unexpected {:?}", other),
    }
    store.insert(a.fingerprint.clone(), 99, 0);
    let plan = plan_delivery(&a, &c, &store, "msg".into());
    assert!(matches!(plan.action, SendAction::Patch { message_id: 99, .. }));
}

#[test]
fn delivery_skipped_when_enabled_but_unconfigured() {
    let mut c = config("");
    c.zulip_host = String::new();
    let store = message_store::new();
    let plan = plan_delivery(&alert(), &c, &store, "msg".into());
    assert!(matches!(plan.action, SendAction::Skip));
    c.zulip_enabled = false;
    let plan = plan_delivery(&alert(), &c, &store, "msg".into());
    assert!(plan.dry_run);
    assert!(matches!(plan.action, SendAction::Post { .. }));
    assert_eq!(DRY_RUN_MESSAGE_ID, 0);
}

#[test]
fn zulip_reply_outcomes() {
    let ok = ZulipSendResponse { id: Some(7), result: "success".into() };
    assert_eq!(post_outcome(true, &Some(ok.clone())), Ok(7));
    assert_eq!(post_outcome(false, &Some(ok)), Err(PostFailure::HttpStatus));
    assert_eq!(post_outcome(true, &None), Err(PostFailure::Unparseable));
    let bad = ZulipSendResponse { id: Some(7), result: "error".into() };
    assert_eq!(post_outcome(true, &Some(bad)), Err(PostFailure::NotSuccess));
    let no_id = ZulipSendResponse { id: None, result: "success".into() };
    assert_eq!(post_outcome(true, &Some(no_id)), Err(PostFailure::MissingId));
    assert_eq!(messages_url("chat.example.com"), "https://chat.example.com/api/v1/messages");
    assert_eq!(message_url("chat.example.com", 42), "https://chat.example.com/api/v1/messages/42");
}

#[test]
fn enrich_marks_alert() {
    let e = enrich(alert());
    assert!(e.enriched);
    assert_eq!(e.service_name, "notification-service");
    assert_eq!(e.alert.id, "test-001");
    assert!(e.processed_at.secs > 0);
}

#[test]
fn enrich_at_records_processing_time() {
    let t = UtcInstant { secs: 1_767_225_600, nanos: 5 };
    let e = enrich_at(alert(), t);
    assert_eq!(e.processed_at, t);
    assert!(e.enriched);
    assert_eq!(e.service_name, "notification-service");
}

#[test]
fn unlisted_keys_are_ignored() {
    let base = Alert::from_value(&alert_payload()).unwrap();
    let mut fields = match alert_payload() {
        JsonValue::Object(f) => f,
        _ => unreachable!(),
    };
    fields.insert(3, ("extra".to_string(), JsonValue::Array(vec![n(1)])));
    let a = Alert::from_value(&JsonValue::Object(fields)).unwrap();
    assert_eq!(a.id, base.id);
    assert_eq!(a.labels.app_name, base.labels.app_name);
    let missing = Alert::from_value(&obj(vec![("extra", s("x"))])).unwrap_err();
    assert_eq!(missing.len(), 8);
}

#[test]
fn non_string_description_is_dropped() {
    let mut fields = match alert_payload() {
        JsonValue::Object(f) => f,
        _ => unreachable!(),
    };
    fields.push(("description".to_string(), n(7)));
    let a = Alert::from_value(&JsonValue::Object(fields)).unwrap();
    assert_eq!(a.description, None);
    assert_eq!(a.id, "a-1");
}

fn form_decode(s: &str) -> String {
    let chars: Vec<char> = s.chars().collect();
    let mut out = String::new();
    let mut i = 0;
    while i < chars.len() {
        if chars[i] == '+' {
            out.push(' ');
            i += 1;
        } else if chars[i] == '%' && i + 2 < chars.len() && chars[i + 1].is_ascii_hexdigit() && chars[i + 2].is_ascii_hexdigit() {
            let v = chars[i + 1].to_digit(16).unwrap() * 16 + chars[i + 2].to_digit(16).unwrap();
            out.push(char::from_u32(v).unwrap());
            i += 3;
        } else {
            out.push(chars[i]);
            i += 1;
        }
    }
    out
}

#[test]
fn encoding_round_trips() {
    for s in ["a b\"c%d+e&f=g#h", "%25 already", "ünïcode +%", ""] {
        let e = url_encode_value(s);
        assert_eq!(form_decode(&e), s);
        assert!(!e.contains(' ') && !e.contains('"') && !e.contains('&') && !e.contains('='));
    }
}

#[test]
fn recorded_post_outcome_decides_next_delivery() {
    let c = config("");
    let a = alert();
    let mut store = message_store::new();
    // A failed post leaves the store unchanged: the next delivery posts again.
    let failed = post_result(false, false, &None);
    assert_eq!(failed, Err(PostFailure::HttpStatus));
    record_post(&mut store, a.fingerprint.clone(), failed, 5);
    assert_eq!(store.len(), 0);
    assert!(matches!(plan_delivery(&a, &c, &store, "m".into()).action, SendAction::Post { .. }));
    // A successful post stores its id: the next delivery edits it.
    let reply = Some(ZulipSendResponse { id: Some(42), result: "success".into() });
    let ok = post_result(false, true, &reply);
    assert_eq!(ok, Ok(42));
    record_post(&mut store, a.fingerprint.clone(), ok, 6);
    assert_eq!(store.get(&a.fingerprint), Some(42));
    assert!(matches!(
        plan_delivery(&a, &c, &store, "m".into()).action,
        SendAction::Patch { message_id: 42, .. }
    ));
}

#[test]
fn dry_run_post_stores_synthetic_id() {
    let mut c = config("");
    c.zulip_enabled = false;
    let a = alert();
    let mut store = message_store::new();
    let plan = plan_delivery(&a, &c, &store, "m".into());
    assert!(plan.dry_run);
    let outcome = post_result(plan.dry_run, false, &None);
    assert_eq!(outcome, Ok(DRY_RUN_MESSAGE_ID));
    record_post(&mut store, a.fingerprint.clone(), outcome, 1);
    assert_eq!(store.get(&a.fingerprint), Some(0));
    assert!(matches!(
        plan_delivery(&a, &c, &store, "m".into()).action,
        SendAction::Patch { message_id: 0, .. }
    ));
}
