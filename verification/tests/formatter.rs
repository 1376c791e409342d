use notification_service::config::Config;
use notification_service::formatter::to_markdown;
use notification_service::models::alert::{Alert, AlertAnnotations, AlertLabels};

fn make_config(keep_base_url: &str) -> Config {
    Config {
        port: 8080,
        keep_base_url: keep_base_url.to_string(),
        graylog_base_url: String::new(),
        environment_name: "test".to_string(),
        zulip_email: String::new(),
        zulip_api_key: String::new(),
        zulip_host: String::new(),
        zulip_default_stream: String::new(),
        zulip_namespace_streams: Vec::new(),
        zulip_enabled: false,
        message_ttl_days: 7,
        zulip_request_timeout_secs: 10,
    }
}

fn make_alert(status: &str, severity: &str) -> Alert {
    Alert {
        id: "test-001".into(),
        name: "TestAlert".into(),
        status: status.into(),
        severity: severity.into(),
        started_at: Some("2026-01-01 00:00:00".into()),
        firing_start_time: None,
        last_received: "2026-01-01T01:00:00Z".into(),
        firing_counter: 3,
        fingerprint: "abc123def456".into(),
        assignee: None,
        ends_at: Some("2026-01-01T02:00:00Z".into()),
        generator_url: Some("http://prometheus/graph".into()),
        description: None,
        rca_summary: None,
        correlated_parent_alert: None,
        correlated_parent_fingerprint: None,
        namespace: Some("monitoring".into()),
        labels: AlertLabels {
            pod: Some("my-pod".into()),
            reason: Some("OOMKilled".into()),
            container: None,
            app_name: None,
            instance: None,
            infrastructure: None,
            network: None,
        },
        annotations: AlertAnnotations {
            summary: Some("Pod is out of memory.".into()),
            runbook_url: None,
        },
    }
}

#[test]
fn firing_critical_contains_emoji() {
    let msg = to_markdown(&make_alert("firing", "critical"), &make_config(""));
    assert!(msg.contains("🔴"));
    assert!(msg.contains("🔥"));
}

#[test]
fn resolved_warning_contains_emoji() {
    let msg = to_markdown(&make_alert("resolved", "warning"), &make_config(""));
    assert!(msg.contains("🟡"));
    assert!(msg.contains("✅"));
}

#[test]
fn absent_labels_not_shown() {
    let msg = to_markdown(&make_alert("firing", "warning"), &make_config(""));
    assert!(!msg.contains("Container"));
    assert!(!msg.contains("Application"));
}

#[test]
fn absent_runbook_not_shown() {
    let msg = to_markdown(&make_alert("firing", "warning"), &make_config(""));
    assert!(!msg.contains("Runbook"));
}

#[test]
fn prometheus_link_always_present() {
    let msg = to_markdown(&make_alert("firing", "warning"), &make_config(""));
    assert!(msg.contains("📊"));
    assert!(msg.contains("http://prometheus/graph"));
}

#[test]
fn keep_url_used_when_configured() {
    let msg = to_markdown(
        &make_alert("firing", "warning"),
        &make_config("https://incidents.example.com"),
    );
    assert!(msg.contains(
        "https://incidents.example.com/alerts/feed?alertPayloadFingerprint=abc123def456"
    ));
}

#[test]
fn plain_name_when_no_keep_configured() {
    let msg = to_markdown(&make_alert("firing", "warning"), &make_config(""));
    // Name appears as bold text, not a hyperlink
    assert!(msg.contains("**TestAlert**"));
    assert!(!msg.contains("[TestAlert]"));
    // Prometheus URL still appears in the footer, not in the header
    assert!(msg.contains("http://prometheus/graph"));
}

#[test]
fn occurrences_label_used() {
    let msg = to_markdown(&make_alert("firing", "warning"), &make_config(""));
    assert!(msg.contains("Occurrences"));
    assert!(!msg.contains("Firing count"));
    assert!(msg.contains("3"));
}

#[test]
fn graylog_link_shown_when_configured() {
    let mut alert = make_alert("firing", "warning");
    alert.labels.app_name = Some("my-app".into());
    alert.namespace = Some("monitoring".into());
    let mut config = make_config("");
    config.graylog_base_url = "https://graylog.example.com/search/abc123?q=".to_string();
    let msg = to_markdown(&alert, &config);
    assert!(msg.contains("🔍"));
    assert!(msg.contains("graylog.example.com"));
    assert!(msg.contains("namespace%3A"));
    assert!(msg.contains("my-app"));
}

#[test]
fn graylog_link_hidden_without_base_url() {
    let mut alert = make_alert("firing", "warning");
    alert.labels.app_name = Some("my-app".into());
    let msg = to_markdown(&alert, &make_config(""));
    assert!(!msg.contains("Graylog"));
}

#[test]
fn graylog_link_hidden_without_app_name() {
    let mut config = make_config("");
    config.graylog_base_url = "https://graylog.example.com/search/abc123?q=".to_string();
    // make_alert has app_name = None
    let msg = to_markdown(&make_alert("firing", "warning"), &config);
    assert!(!msg.contains("Graylog"));
}

#[test]
fn rca_summary_shown_when_present() {
    let mut alert = make_alert("firing", "critical");
    alert.rca_summary = Some("Memory leak in the connection pool introduced in v1.4.2.".into());
    let msg = to_markdown(&alert, &make_config(""));
    assert!(msg.contains("**Root cause analysis:**"));
    assert!(msg.contains("Memory leak in the connection pool introduced in v1.4.2."));
}

#[test]
fn rca_summary_hidden_when_absent() {
    let msg = to_markdown(&make_alert("firing", "warning"), &make_config(""));
    assert!(!msg.contains("Root cause analysis"));
}

#[test]
fn correlated_alert_shown_with_keep_url() {
    let mut alert = make_alert("firing", "critical");
    alert.correlated_parent_alert = Some("ParentAlert".into());
    alert.correlated_parent_fingerprint = Some("deadbeef1234".into());
    let msg = to_markdown(&alert, &make_config("https://incidents.example.com"));
    assert!(msg.contains("**Correlated alerts:**"));
    assert!(msg.contains("[ParentAlert]"));
    assert!(msg.contains("alertPayloadFingerprint=deadbeef1234"));
}

#[test]
fn correlated_alert_hidden_without_keep_url() {
    let mut alert = make_alert("firing", "critical");
    alert.correlated_parent_alert = Some("ParentAlert".into());
    alert.correlated_parent_fingerprint = Some("deadbeef1234".into());
    // No KEEP_BASE_URL configured → bullet must be suppressed entirely
    let msg = to_markdown(&alert, &make_config(""));
    assert!(!msg.contains("Correlated alerts"));
}

#[test]
fn correlated_alert_hidden_when_absent() {
    let msg = to_markdown(&make_alert("firing", "warning"), &make_config("https://incidents.example.com"));
    assert!(!msg.contains("Correlated alerts"));
}

#[test]
fn no_dates_in_output() {
    let msg = to_markdown(&make_alert("firing", "warning"), &make_config(""));
    assert!(!msg.contains("Started"));
    assert!(!msg.contains("Last seen"));
    assert!(!msg.contains("Ends"));
    assert!(!msg.contains("Fingerprint"));
}
