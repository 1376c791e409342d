//! The alert payload: validated extraction from arbitrary JSON.

use vstd::prelude::*;
use crate::json::{
    first_token, law_added_member_keeps_other_lookups, law_replaced_member_keeps_other_lookups,
    lemma_first_token_plain, lemma_object_get_first, lemma_plain_path, lemma_plain_two_keys,
    lemma_pointer_single_key, member_string, member_u64, nested_member_string, pointer_spec, JsonValue,
};
use crate::models::{
    missing_if, nullable_str, nullable_str_ok, opt_str, opt_view, req_str, req_u64, str_at,
    strings_view, u64_at,
};
use crate::datetime::{now_iso, utc_rendering, UtcInstant, ISO_MILLIS_FORMAT};

verus! {

/// Fields extracted from the `labels` object.  All are optional.
#[derive(Debug, Clone)]
pub struct AlertLabels {
    pub pod: Option<String>,
    pub reason: Option<String>,
    pub container: Option<String>,
    /// `labels.app_kubernetes_io_name`
    pub app_name: Option<String>,
    /// `labels.app_kubernetes_io_instance`
    pub instance: Option<String>,
    /// `labels.infrastructure`
    pub infrastructure: Option<String>,
    /// `labels.network`
    pub network: Option<String>,
}

/// Fields extracted from the `annotations` object.
#[derive(Debug, Clone)]
pub struct AlertAnnotations {
    pub summary: Option<String>,
    pub runbook_url: Option<String>,
}

/// Alert fields validated and extracted from an incoming JSON payload.
///
/// Any JSON object is accepted; [`Alert::from_value`] extracts the fields
/// below and reports every required field that is absent or has an
/// unexpected type.  Other fields are ignored.
#[derive(Debug, Clone)]
pub struct Alert {
    pub id: String,
    pub name: String,
    pub status: String,
    pub severity: String,
    /// Raw timestamp from `startedAt`.
    pub started_at: Option<String>,
    /// Raw timestamp from `firingStartTime`.
    pub firing_start_time: Option<String>,
    /// Raw timestamp from `lastReceived`.
    pub last_received: String,
    /// Number of times the alert has fired (`firingCounter`).
    pub firing_counter: u64,
    pub fingerprint: String,
    /// `null` when unassigned; the key must be present in the payload.
    pub assignee: Option<String>,
    /// Raw timestamp from `endsAt`.
    pub ends_at: Option<String>,
    /// Prometheus generator URL (`generatorURL`).
    pub generator_url: Option<String>,
    pub description: Option<String>,
    /// Free-text root cause analysis summary (`rca_summary`).
    pub rca_summary: Option<String>,
    /// Name of the parent alert this alert is correlated with.
    pub correlated_parent_alert: Option<String>,
    /// Fingerprint of the parent alert.
    pub correlated_parent_fingerprint: Option<String>,
    /// Kubernetes namespace the alert originated from.
    pub namespace: Option<String>,
    pub labels: AlertLabels,
    pub annotations: AlertAnnotations,
}

/// An alert after enrichment by the processing layer.
pub struct EnrichedAlert {
    pub alert: Alert,
    /// UTC time at which this service processed the alert.
    pub processed_at: UtcInstant,
    /// Always `true`: enrichment has been applied.
    pub enriched: bool,
    /// Name of the service that performed the enrichment.
    pub service_name: String,
}

/// The required-field paths that `v` fails, in the order they are checked.
pub open spec fn alert_missing_spec(v: JsonValue) -> Seq<Seq<char>> {
    missing_if(str_at(v, "/id"@) is Some, "/id"@)
        + missing_if(str_at(v, "/name"@) is Some, "/name"@)
        + missing_if(str_at(v, "/status"@) is Some, "/status"@)
        + missing_if(str_at(v, "/severity"@) is Some, "/severity"@)
        + missing_if(str_at(v, "/lastReceived"@) is Some, "/lastReceived"@)
        + missing_if(str_at(v, "/fingerprint"@) is Some, "/fingerprint"@)
        + missing_if(u64_at(v, "/firingCounter"@) is Some, "/firingCounter"@)
        + missing_if(nullable_str_ok(v, "/assignee"@), "/assignee"@)
}

/// `a` holds exactly the fields that [`Alert::from_value`] extracts from `v`.
pub open spec fn alert_fields_spec(a: Alert, v: JsonValue) -> bool {
    &&& str_at(v, "/id"@) == Some(a.id@)
    &&& str_at(v, "/name"@) == Some(a.name@)
    &&& str_at(v, "/status"@) == Some(a.status@)
    &&& str_at(v, "/severity"@) == Some(a.severity@)
    &&& opt_view(a.started_at) == str_at(v, "/startedAt"@)
    &&& opt_view(a.firing_start_time) == str_at(v, "/firingStartTime"@)
    &&& str_at(v, "/lastReceived"@) == Some(a.last_received@)
    &&& u64_at(v, "/firingCounter"@) == Some(a.firing_counter)
    &&& str_at(v, "/fingerprint"@) == Some(a.fingerprint@)
    &&& opt_view(a.assignee) == str_at(v, "/assignee"@)
    &&& opt_view(a.ends_at) == str_at(v, "/endsAt"@)
    &&& opt_view(a.generator_url) == str_at(v, "/generatorURL"@)
    &&& opt_view(a.description) == str_at(v, "/description"@)
    &&& opt_view(a.rca_summary) == str_at(v, "/rca_summary"@)
    &&& opt_view(a.correlated_parent_alert) == str_at(v, "/correlated_parent_alert"@)
    &&& opt_view(a.correlated_parent_fingerprint) == str_at(v, "/correlated_parent_fingerprint"@)
    &&& opt_view(a.namespace) == str_at(v, "/namespace"@)
    &&& opt_view(a.labels.pod) == str_at(v, "/labels/pod"@)
    &&& opt_view(a.labels.reason) == str_at(v, "/labels/reason"@)
    &&& opt_view(a.labels.container) == str_at(v, "/labels/container"@)
    &&& opt_view(a.labels.app_name) == str_at(v, "/labels/app_kubernetes_io_name"@)
    &&& opt_view(a.labels.instance) == str_at(v, "/labels/app_kubernetes_io_instance"@)
    &&& opt_view(a.labels.infrastructure) == str_at(v, "/labels/infrastructure"@)
    &&& opt_view(a.labels.network) == str_at(v, "/labels/network"@)
    &&& opt_view(a.annotations.summary) == str_at(v, "/annotations/summary"@)
    &&& opt_view(a.annotations.runbook_url) == str_at(v, "/annotations/runbook_url"@)
}

/// The start time in the payload: `started_at`, else `firing_start_time`.
pub open spec fn payload_start_spec(a: Alert) -> Option<Seq<char>> {
    match a.started_at {
        Some(s) => Some(s@),
        None => opt_view(a.firing_start_time),
    }
}

impl Alert {
    /// Validates and extracts the well-known fields from a JSON value.
    ///
    /// Returns `Err(missing)` with the JSON-pointer path of every required
    /// field that is absent or has an unexpected type, in check order;
    /// `Ok` exactly when there is none.
    pub fn from_value(v: &JsonValue) -> (r: Result<Alert, Vec<String>>)
        ensures
            match r {
                Ok(a) => alert_missing_spec(*v).len() == 0 && alert_fields_spec(a, *v),
                Err(m) => alert_missing_spec(*v).len() > 0 && strings_view(m@) == alert_missing_spec(*v),
            },
    {
        let mut missing: Vec<String> = Vec::new();
        let id = req_str(v, "/id", &mut missing);
        let name = req_str(v, "/name", &mut missing);
        let status = req_str(v, "/status", &mut missing);
        let severity = req_str(v, "/severity", &mut missing);
        let started_at = opt_str(v, "/startedAt");
        let firing_start_time = opt_str(v, "/firingStartTime");
        let last_received = req_str(v, "/lastReceived", &mut missing);
        let fingerprint = req_str(v, "/fingerprint", &mut missing);
        let ends_at = opt_str(v, "/endsAt");
        let generator_url = opt_str(v, "/generatorURL");
        let firing_counter = req_u64(v, "/firingCounter", &mut missing);
        let assignee = nullable_str(v, "/assignee", &mut missing);
        assert(strings_view(missing@) =~= alert_missing_spec(*v));

        if missing.len() > 0 {
            return Err(missing);
        }
        Ok(Alert {
            id: id.unwrap(),
            name: name.unwrap(),
            status: status.unwrap(),
            severity: severity.unwrap(),
            started_at,
            firing_start_time,
            last_received: last_received.unwrap(),
            firing_counter: firing_counter.unwrap(),
            fingerprint: fingerprint.unwrap(),
            assignee,
            ends_at,
            generator_url,
            description: opt_str(v, "/description"),
            rca_summary: opt_str(v, "/rca_summary"),
            correlated_parent_alert: opt_str(v, "/correlated_parent_alert"),
            correlated_parent_fingerprint: opt_str(v, "/correlated_parent_fingerprint"),
            namespace: opt_str(v, "/namespace"),
            labels: AlertLabels {
                pod: opt_str(v, "/labels/pod"),
                reason: opt_str(v, "/labels/reason"),
                container: opt_str(v, "/labels/container"),
                app_name: opt_str(v, "/labels/app_kubernetes_io_name"),
                instance: opt_str(v, "/labels/app_kubernetes_io_instance"),
                infrastructure: opt_str(v, "/labels/infrastructure"),
                network: opt_str(v, "/labels/network"),
            },
            annotations: AlertAnnotations {
                summary: opt_str(v, "/annotations/summary"),
                runbook_url: opt_str(v, "/annotations/runbook_url"),
            },
        })
    }

    /// The start time given `now`: `started_at`, else `firing_start_time`,
    /// else `now`.
    pub fn effective_started_at_or(&self, now: &str) -> (r: String)
        ensures
            r@ == match payload_start_spec(*self) {
                Some(s) => s,
                None => now@,
            },
    {
        match &self.started_at {
            Some(s) => crate::text::to_owned_string(s.as_str()),
            None => match &self.firing_start_time {
                Some(s) => crate::text::to_owned_string(s.as_str()),
                None => crate::text::to_owned_string(now),
            },
        }
    }

    /// Resolves the effective start time: `started_at`, else
    /// `firing_start_time`, else the current UTC time rendered as ISO-8601
    /// with milliseconds.
    pub fn effective_started_at(&self) -> (r: String)
        ensures
            payload_start_spec(*self) is Some ==> r@ == payload_start_spec(*self)->0,
            payload_start_spec(*self) is None ==> exists|secs: i64, nanos: u32|
                utc_rendering(secs, nanos, ISO_MILLIS_FORMAT@) == Some(r@),
    {
        match payload_start_opt(self) {
            Some(s) => s,
            None => now_iso(),
        }
    }
}

/// The start time in the payload, if any.
fn payload_start_opt(a: &Alert) -> (r: Option<String>)
    ensures
        opt_view(r) == payload_start_spec(*a),
{
    match &a.started_at {
        Some(s) => Some(crate::text::to_owned_string(s.as_str())),
        None => match &a.firing_start_time {
            Some(s) => Some(crate::text::to_owned_string(s.as_str())),
            None => None,
        },
    }
}

} // verus!

verus! {

/// The top-level keys that [`Alert::from_value`] reads.
pub open spec fn alert_keys() -> Seq<Seq<char>> {
    seq![
        "id"@,
        "name"@,
        "status"@,
        "severity"@,
        "startedAt"@,
        "firingStartTime"@,
        "lastReceived"@,
        "firingCounter"@,
        "fingerprint"@,
        "assignee"@,
        "endsAt"@,
        "generatorURL"@,
        "description"@,
        "rca_summary"@,
        "correlated_parent_alert"@,
        "correlated_parent_fingerprint"@,
        "namespace"@,
        "labels"@,
        "annotations"@,
    ]
}

/// The first token of each path that [`Alert::from_value`] reads is one of
/// [`alert_keys`].
#[verifier::rlimit(30)]
proof fn lemma_alert_path_tokens()
    ensures
        first_token("/id"@) == alert_keys()[0] && "/id"@.len() > 0 && "/id"@[0] == '/',
        first_token("/name"@) == alert_keys()[1] && "/name"@.len() > 0 && "/name"@[0] == '/',
        first_token("/status"@) == alert_keys()[2] && "/status"@.len() > 0 && "/status"@[0] == '/',
        first_token("/severity"@) == alert_keys()[3] && "/severity"@.len() > 0 && "/severity"@[0] == '/',
        first_token("/startedAt"@) == alert_keys()[4] && "/startedAt"@.len() > 0 && "/startedAt"@[0] == '/',
        first_token("/firingStartTime"@) == alert_keys()[5] && "/firingStartTime"@.len() > 0 && "/firingStartTime"@[0] == '/',
        first_token("/lastReceived"@) == alert_keys()[6] && "/lastReceived"@.len() > 0 && "/lastReceived"@[0] == '/',
        first_token("/firingCounter"@) == alert_keys()[7] && "/firingCounter"@.len() > 0 && "/firingCounter"@[0] == '/',
        first_token("/fingerprint"@) == alert_keys()[8] && "/fingerprint"@.len() > 0 && "/fingerprint"@[0] == '/',
        first_token("/assignee"@) == alert_keys()[9] && "/assignee"@.len() > 0 && "/assignee"@[0] == '/',
        first_token("/endsAt"@) == alert_keys()[10] && "/endsAt"@.len() > 0 && "/endsAt"@[0] == '/',
        first_token("/generatorURL"@) == alert_keys()[11] && "/generatorURL"@.len() > 0 && "/generatorURL"@[0] == '/',
        first_token("/description"@) == alert_keys()[12] && "/description"@.len() > 0 && "/description"@[0] == '/',
        first_token("/rca_summary"@) == alert_keys()[13] && "/rca_summary"@.len() > 0 && "/rca_summary"@[0] == '/',
        first_token("/correlated_parent_alert"@) == alert_keys()[14] && "/correlated_parent_alert"@.len() > 0 && "/correlated_parent_alert"@[0] == '/',
        first_token("/correlated_parent_fingerprint"@) == alert_keys()[15] && "/correlated_parent_fingerprint"@.len() > 0 && "/correlated_parent_fingerprint"@[0] == '/',
        first_token("/namespace"@) == alert_keys()[16] && "/namespace"@.len() > 0 && "/namespace"@[0] == '/',
        first_token("/labels/pod"@) == alert_keys()[17] && "/labels/pod"@.len() > 0 && "/labels/pod"@[0] == '/',
        first_token("/labels/reason"@) == alert_keys()[17] && "/labels/reason"@.len() > 0 && "/labels/reason"@[0] == '/',
        first_token("/labels/container"@) == alert_keys()[17] && "/labels/container"@.len() > 0 && "/labels/container"@[0] == '/',
        first_token("/labels/app_kubernetes_io_name"@) == alert_keys()[17] && "/labels/app_kubernetes_io_name"@.len() > 0 && "/labels/app_kubernetes_io_name"@[0] == '/',
        first_token("/labels/app_kubernetes_io_instance"@) == alert_keys()[17] && "/labels/app_kubernetes_io_instance"@.len() > 0 && "/labels/app_kubernetes_io_instance"@[0] == '/',
        first_token("/labels/infrastructure"@) == alert_keys()[17] && "/labels/infrastructure"@.len() > 0 && "/labels/infrastructure"@[0] == '/',
        first_token("/labels/network"@) == alert_keys()[17] && "/labels/network"@.len() > 0 && "/labels/network"@[0] == '/',
        first_token("/annotations/summary"@) == alert_keys()[18] && "/annotations/summary"@.len() > 0 && "/annotations/summary"@[0] == '/',
        first_token("/annotations/runbook_url"@) == alert_keys()[18] && "/annotations/runbook_url"@.len() > 0 && "/annotations/runbook_url"@[0] == '/',
{
    reveal_strlit("/id");
    reveal_strlit("id");
    lemma_first_token_plain("/id"@, 3);
    assert("/id"@.subrange(1, 3) =~= "id"@);
    reveal_strlit("/name");
    reveal_strlit("name");
    lemma_first_token_plain("/name"@, 5);
    assert("/name"@.subrange(1, 5) =~= "name"@);
    reveal_strlit("/status");
    reveal_strlit("status");
    lemma_first_token_plain("/status"@, 7);
    assert("/status"@.subrange(1, 7) =~= "status"@);
    reveal_strlit("/severity");
    reveal_strlit("severity");
    lemma_first_token_plain("/severity"@, 9);
    assert("/severity"@.subrange(1, 9) =~= "severity"@);
    reveal_strlit("/startedAt");
    reveal_strlit("startedAt");
    lemma_first_token_plain("/startedAt"@, 10);
    assert("/startedAt"@.subrange(1, 10) =~= "startedAt"@);
    reveal_strlit("/firingStartTime");
    reveal_strlit("firingStartTime");
    lemma_first_token_plain("/firingStartTime"@, 16);
    assert("/firingStartTime"@.subrange(1, 16) =~= "firingStartTime"@);
    reveal_strlit("/lastReceived");
    reveal_strlit("lastReceived");
    lemma_first_token_plain("/lastReceived"@, 13);
    assert("/lastReceived"@.subrange(1, 13) =~= "lastReceived"@);
    reveal_strlit("/firingCounter");
    reveal_strlit("firingCounter");
    lemma_first_token_plain("/firingCounter"@, 14);
    assert("/firingCounter"@.subrange(1, 14) =~= "firingCounter"@);
    reveal_strlit("/fingerprint");
    reveal_strlit("fingerprint");
    lemma_first_token_plain("/fingerprint"@, 12);
    assert("/fingerprint"@.subrange(1, 12) =~= "fingerprint"@);
    reveal_strlit("/assignee");
    reveal_strlit("assignee");
    lemma_first_token_plain("/assignee"@, 9);
    assert("/assignee"@.subrange(1, 9) =~= "assignee"@);
    reveal_strlit("/endsAt");
    reveal_strlit("endsAt");
    lemma_first_token_plain("/endsAt"@, 7);
    assert("/endsAt"@.subrange(1, 7) =~= "endsAt"@);
    reveal_strlit("/generatorURL");
    reveal_strlit("generatorURL");
    lemma_first_token_plain("/generatorURL"@, 13);
    assert("/generatorURL"@.subrange(1, 13) =~= "generatorURL"@);
    reveal_strlit("/description");
    reveal_strlit("description");
    lemma_first_token_plain("/description"@, 12);
    assert("/description"@.subrange(1, 12) =~= "description"@);
    reveal_strlit("/rca_summary");
    reveal_strlit("rca_summary");
    lemma_first_token_plain("/rca_summary"@, 12);
    assert("/rca_summary"@.subrange(1, 12) =~= "rca_summary"@);
    reveal_strlit("/correlated_parent_alert");
    reveal_strlit("correlated_parent_alert");
    lemma_first_token_plain("/correlated_parent_alert"@, 24);
    assert("/correlated_parent_alert"@.subrange(1, 24) =~= "correlated_parent_alert"@);
    reveal_strlit("/correlated_parent_fingerprint");
    reveal_strlit("correlated_parent_fingerprint");
    lemma_first_token_plain("/correlated_parent_fingerprint"@, 30);
    assert("/correlated_parent_fingerprint"@.subrange(1, 30) =~= "correlated_parent_fingerprint"@);
    reveal_strlit("/namespace");
    reveal_strlit("namespace");
    lemma_first_token_plain("/namespace"@, 10);
    assert("/namespace"@.subrange(1, 10) =~= "namespace"@);
    reveal_strlit("/labels/pod");
    reveal_strlit("labels");
    lemma_first_token_plain("/labels/pod"@, 7);
    assert("/labels/pod"@.subrange(1, 7) =~= "labels"@);
    reveal_strlit("/labels/reason");
    reveal_strlit("labels");
    lemma_first_token_plain("/labels/reason"@, 7);
    assert("/labels/reason"@.subrange(1, 7) =~= "labels"@);
    reveal_strlit("/labels/container");
    reveal_strlit("labels");
    lemma_first_token_plain("/labels/container"@, 7);
    assert("/labels/container"@.subrange(1, 7) =~= "labels"@);
    reveal_strlit("/labels/app_kubernetes_io_name");
    reveal_strlit("labels");
    lemma_first_token_plain("/labels/app_kubernetes_io_name"@, 7);
    assert("/labels/app_kubernetes_io_name"@.subrange(1, 7) =~= "labels"@);
    reveal_strlit("/labels/app_kubernetes_io_instance");
    reveal_strlit("labels");
    lemma_first_token_plain("/labels/app_kubernetes_io_instance"@, 7);
    assert("/labels/app_kubernetes_io_instance"@.subrange(1, 7) =~= "labels"@);
    reveal_strlit("/labels/infrastructure");
    reveal_strlit("labels");
    lemma_first_token_plain("/labels/infrastructure"@, 7);
    assert("/labels/infrastructure"@.subrange(1, 7) =~= "labels"@);
    reveal_strlit("/labels/network");
    reveal_strlit("labels");
    lemma_first_token_plain("/labels/network"@, 7);
    assert("/labels/network"@.subrange(1, 7) =~= "labels"@);
    reveal_strlit("/annotations/summary");
    reveal_strlit("annotations");
    lemma_first_token_plain("/annotations/summary"@, 12);
    assert("/annotations/summary"@.subrange(1, 12) =~= "annotations"@);
    reveal_strlit("/annotations/runbook_url");
    reveal_strlit("annotations");
    lemma_first_token_plain("/annotations/runbook_url"@, 12);
    assert("/annotations/runbook_url"@.subrange(1, 12) =~= "annotations"@);
}

/// Two payloads that agree at every path [`Alert::from_value`] reads give
/// the same missing fields and the same extracted alert.
proof fn lemma_alert_same_paths(v: JsonValue, v2: JsonValue)
    requires
        pointer_spec(v2, "/id"@) == pointer_spec(v, "/id"@),
        pointer_spec(v2, "/name"@) == pointer_spec(v, "/name"@),
        pointer_spec(v2, "/status"@) == pointer_spec(v, "/status"@),
        pointer_spec(v2, "/severity"@) == pointer_spec(v, "/severity"@),
        pointer_spec(v2, "/startedAt"@) == pointer_spec(v, "/startedAt"@),
        pointer_spec(v2, "/firingStartTime"@) == pointer_spec(v, "/firingStartTime"@),
        pointer_spec(v2, "/lastReceived"@) == pointer_spec(v, "/lastReceived"@),
        pointer_spec(v2, "/firingCounter"@) == pointer_spec(v, "/firingCounter"@),
        pointer_spec(v2, "/fingerprint"@) == pointer_spec(v, "/fingerprint"@),
        pointer_spec(v2, "/assignee"@) == pointer_spec(v, "/assignee"@),
        pointer_spec(v2, "/endsAt"@) == pointer_spec(v, "/endsAt"@),
        pointer_spec(v2, "/generatorURL"@) == pointer_spec(v, "/generatorURL"@),
        pointer_spec(v2, "/description"@) == pointer_spec(v, "/description"@),
        pointer_spec(v2, "/rca_summary"@) == pointer_spec(v, "/rca_summary"@),
        pointer_spec(v2, "/correlated_parent_alert"@) == pointer_spec(v, "/correlated_parent_alert"@),
        pointer_spec(v2, "/correlated_parent_fingerprint"@) == pointer_spec(v, "/correlated_parent_fingerprint"@),
        pointer_spec(v2, "/namespace"@) == pointer_spec(v, "/namespace"@),
        pointer_spec(v2, "/labels/pod"@) == pointer_spec(v, "/labels/pod"@),
        pointer_spec(v2, "/labels/reason"@) == pointer_spec(v, "/labels/reason"@),
        pointer_spec(v2, "/labels/container"@) == pointer_spec(v, "/labels/container"@),
        pointer_spec(v2, "/labels/app_kubernetes_io_name"@) == pointer_spec(v, "/labels/app_kubernetes_io_name"@),
        pointer_spec(v2, "/labels/app_kubernetes_io_instance"@) == pointer_spec(v, "/labels/app_kubernetes_io_instance"@),
        pointer_spec(v2, "/labels/infrastructure"@) == pointer_spec(v, "/labels/infrastructure"@),
        pointer_spec(v2, "/labels/network"@) == pointer_spec(v, "/labels/network"@),
        pointer_spec(v2, "/annotations/summary"@) == pointer_spec(v, "/annotations/summary"@),
        pointer_spec(v2, "/annotations/runbook_url"@) == pointer_spec(v, "/annotations/runbook_url"@),
    ensures
        alert_missing_spec(v2) == alert_missing_spec(v),
        forall|a: Alert| alert_fields_spec(a, v2) == alert_fields_spec(a, v),
{
}

/// Keys that [`Alert::from_value`] does not read are ignored: adding a
/// member with such a key to the payload object changes neither the missing
/// fields nor the extracted alert.
#[verifier::rlimit(30)]
pub proof fn law_alert_ignores_unlisted_keys(
    m: Vec<(String, JsonValue)>,
    m2: Vec<(String, JsonValue)>,
    i: int,
    k: String,
    x: JsonValue,
)
    requires
        0 <= i <= m@.len(),
        m2@ == m@.insert(i, (k, x)),
        !alert_keys().contains(k@),
    ensures
        alert_missing_spec(JsonValue::Object(m2)) == alert_missing_spec(JsonValue::Object(m)),
        forall|a: Alert| alert_fields_spec(a, JsonValue::Object(m2)) == alert_fields_spec(a, JsonValue::Object(m)),
{
    lemma_alert_path_tokens();
    assert(alert_keys()[0] != k@);
    law_added_member_keeps_other_lookups(m, m2, i, k, x, "/id"@);
    assert(alert_keys()[1] != k@);
    law_added_member_keeps_other_lookups(m, m2, i, k, x, "/name"@);
    assert(alert_keys()[2] != k@);
    law_added_member_keeps_other_lookups(m, m2, i, k, x, "/status"@);
    assert(alert_keys()[3] != k@);
    law_added_member_keeps_other_lookups(m, m2, i, k, x, "/severity"@);
    assert(alert_keys()[4] != k@);
    law_added_member_keeps_other_lookups(m, m2, i, k, x, "/startedAt"@);
    assert(alert_keys()[5] != k@);
    law_added_member_keeps_other_lookups(m, m2, i, k, x, "/firingStartTime"@);
    assert(alert_keys()[6] != k@);
    law_added_member_keeps_other_lookups(m, m2, i, k, x, "/lastReceived"@);
    assert(alert_keys()[7] != k@);
    law_added_member_keeps_other_lookups(m, m2, i, k, x, "/firingCounter"@);
    assert(alert_keys()[8] != k@);
    law_added_member_keeps_other_lookups(m, m2, i, k, x, "/fingerprint"@);
    assert(alert_keys()[9] != k@);
    law_added_member_keeps_other_lookups(m, m2, i, k, x, "/assignee"@);
    assert(alert_keys()[10] != k@);
    law_added_member_keeps_other_lookups(m, m2, i, k, x, "/endsAt"@);
    assert(alert_keys()[11] != k@);
    law_added_member_keeps_other_lookups(m, m2, i, k, x, "/generatorURL"@);
    assert(alert_keys()[12] != k@);
    law_added_member_keeps_other_lookups(m, m2, i, k, x, "/description"@);
    assert(alert_keys()[13] != k@);
    law_added_member_keeps_other_lookups(m, m2, i, k, x, "/rca_summary"@);
    assert(alert_keys()[14] != k@);
    law_added_member_keeps_other_lookups(m, m2, i, k, x, "/correlated_parent_alert"@);
    assert(alert_keys()[15] != k@);
    law_added_member_keeps_other_lookups(m, m2, i, k, x, "/correlated_parent_fingerprint"@);
    assert(alert_keys()[16] != k@);
    law_added_member_keeps_other_lookups(m, m2, i, k, x, "/namespace"@);
    assert(alert_keys()[17] != k@);
    law_added_member_keeps_other_lookups(m, m2, i, k, x, "/labels/pod"@);
    assert(alert_keys()[17] != k@);
    law_added_member_keeps_other_lookups(m, m2, i, k, x, "/labels/reason"@);
    assert(alert_keys()[17] != k@);
    law_added_member_keeps_other_lookups(m, m2, i, k, x, "/labels/container"@);
    assert(alert_keys()[17] != k@);
    law_added_member_keeps_other_lookups(m, m2, i, k, x, "/labels/app_kubernetes_io_name"@);
    assert(alert_keys()[17] != k@);
    law_added_member_keeps_other_lookups(m, m2, i, k, x, "/labels/app_kubernetes_io_instance"@);
    assert(alert_keys()[17] != k@);
    law_added_member_keeps_other_lookups(m, m2, i, k, x, "/labels/infrastructure"@);
    assert(alert_keys()[17] != k@);
    law_added_member_keeps_other_lookups(m, m2, i, k, x, "/labels/network"@);
    assert(alert_keys()[18] != k@);
    law_added_member_keeps_other_lookups(m, m2, i, k, x, "/annotations/summary"@);
    assert(alert_keys()[18] != k@);
    law_added_member_keeps_other_lookups(m, m2, i, k, x, "/annotations/runbook_url"@);
    lemma_alert_same_paths(JsonValue::Object(m), JsonValue::Object(m2));
}

/// Replacing the value of the member with key `description` keeps these
/// paths that [`Alert::from_value`] reads.
#[verifier::rlimit(30)]
proof fn lemma_description_replacement_keeps_paths_a(
    m: Vec<(String, JsonValue)>,
    m2: Vec<(String, JsonValue)>,
    i: int,
    x: JsonValue,
)
    requires
        0 <= i < m@.len(),
        m@[i].0@ == "description"@,
        m2@ == m@.update(i, (m@[i].0, x)),
    ensures
        pointer_spec(JsonValue::Object(m2), "/id"@) == pointer_spec(JsonValue::Object(m), "/id"@),
        pointer_spec(JsonValue::Object(m2), "/name"@) == pointer_spec(JsonValue::Object(m), "/name"@),
        pointer_spec(JsonValue::Object(m2), "/status"@) == pointer_spec(JsonValue::Object(m), "/status"@),
        pointer_spec(JsonValue::Object(m2), "/severity"@) == pointer_spec(JsonValue::Object(m), "/severity"@),
        pointer_spec(JsonValue::Object(m2), "/startedAt"@) == pointer_spec(JsonValue::Object(m), "/startedAt"@),
        pointer_spec(JsonValue::Object(m2), "/firingStartTime"@) == pointer_spec(JsonValue::Object(m), "/firingStartTime"@),
        pointer_spec(JsonValue::Object(m2), "/lastReceived"@) == pointer_spec(JsonValue::Object(m), "/lastReceived"@),
        pointer_spec(JsonValue::Object(m2), "/firingCounter"@) == pointer_spec(JsonValue::Object(m), "/firingCounter"@),
        pointer_spec(JsonValue::Object(m2), "/fingerprint"@) == pointer_spec(JsonValue::Object(m), "/fingerprint"@),
{
    lemma_alert_path_tokens();
    reveal_strlit("description");
    reveal_strlit("id");
    reveal_strlit("name");
    reveal_strlit("status");
    reveal_strlit("severity");
    reveal_strlit("startedAt");
    reveal_strlit("firingStartTime");
    reveal_strlit("lastReceived");
    reveal_strlit("firingCounter");
    reveal_strlit("fingerprint");
    assert(alert_keys()[0] != "description"@);
    law_replaced_member_keeps_other_lookups(m, m2, i, x, "/id"@);
    assert(alert_keys()[1] != "description"@);
    law_replaced_member_keeps_other_lookups(m, m2, i, x, "/name"@);
    assert(alert_keys()[2] != "description"@);
    law_replaced_member_keeps_other_lookups(m, m2, i, x, "/status"@);
    assert(alert_keys()[3] != "description"@);
    law_replaced_member_keeps_other_lookups(m, m2, i, x, "/severity"@);
    assert(alert_keys()[4] != "description"@);
    law_replaced_member_keeps_other_lookups(m, m2, i, x, "/startedAt"@);
    assert(alert_keys()[5] != "description"@);
    law_replaced_member_keeps_other_lookups(m, m2, i, x, "/firingStartTime"@);
    assert(alert_keys()[6] != "description"@);
    law_replaced_member_keeps_other_lookups(m, m2, i, x, "/lastReceived"@);
    assert(alert_keys()[7] != "description"@);
    law_replaced_member_keeps_other_lookups(m, m2, i, x, "/firingCounter"@);
    assert(alert_keys()[8] != "description"@);
    law_replaced_member_keeps_other_lookups(m, m2, i, x, "/fingerprint"@);
}

/// Replacing the value of the member with key `description` keeps these
/// paths that [`Alert::from_value`] reads.
#[verifier::rlimit(30)]
proof fn lemma_description_replacement_keeps_paths_b(
    m: Vec<(String, JsonValue)>,
    m2: Vec<(String, JsonValue)>,
    i: int,
    x: JsonValue,
)
    requires
        0 <= i < m@.len(),
        m@[i].0@ == "description"@,
        m2@ == m@.update(i, (m@[i].0, x)),
    ensures
        pointer_spec(JsonValue::Object(m2), "/assignee"@) == pointer_spec(JsonValue::Object(m), "/assignee"@),
        pointer_spec(JsonValue::Object(m2), "/endsAt"@) == pointer_spec(JsonValue::Object(m), "/endsAt"@),
        pointer_spec(JsonValue::Object(m2), "/generatorURL"@) == pointer_spec(JsonValue::Object(m), "/generatorURL"@),
        pointer_spec(JsonValue::Object(m2), "/rca_summary"@) == pointer_spec(JsonValue::Object(m), "/rca_summary"@),
        pointer_spec(JsonValue::Object(m2), "/correlated_parent_alert"@) == pointer_spec(JsonValue::Object(m), "/correlated_parent_alert"@),
        pointer_spec(JsonValue::Object(m2), "/correlated_parent_fingerprint"@) == pointer_spec(JsonValue::Object(m), "/correlated_parent_fingerprint"@),
        pointer_spec(JsonValue::Object(m2), "/namespace"@) == pointer_spec(JsonValue::Object(m), "/namespace"@),
        pointer_spec(JsonValue::Object(m2), "/labels/pod"@) == pointer_spec(JsonValue::Object(m), "/labels/pod"@),
{
    lemma_alert_path_tokens();
    reveal_strlit("description");
    reveal_strlit("assignee");
    reveal_strlit("endsAt");
    reveal_strlit("generatorURL");
    reveal_strlit("rca_summary");
    reveal_strlit("correlated_parent_alert");
    reveal_strlit("correlated_parent_fingerprint");
    reveal_strlit("namespace");
    reveal_strlit("labels");
    assert(alert_keys()[9] != "description"@);
    law_replaced_member_keeps_other_lookups(m, m2, i, x, "/assignee"@);
    assert(alert_keys()[10] != "description"@);
    law_replaced_member_keeps_other_lookups(m, m2, i, x, "/endsAt"@);
    assert(alert_keys()[11] != "description"@);
    law_replaced_member_keeps_other_lookups(m, m2, i, x, "/generatorURL"@);
    assert(alert_keys()[13] != "description"@);
    law_replaced_member_keeps_other_lookups(m, m2, i, x, "/rca_summary"@);
    assert(alert_keys()[14] != "description"@);
    law_replaced_member_keeps_other_lookups(m, m2, i, x, "/correlated_parent_alert"@);
    assert(alert_keys()[15] != "description"@);
    law_replaced_member_keeps_other_lookups(m, m2, i, x, "/correlated_parent_fingerprint"@);
    assert(alert_keys()[16] != "description"@);
    law_replaced_member_keeps_other_lookups(m, m2, i, x, "/namespace"@);
    assert(alert_keys()[17] != "description"@);
    law_replaced_member_keeps_other_lookups(m, m2, i, x, "/labels/pod"@);
}

/// Replacing the value of the member with key `description` keeps these
/// paths that [`Alert::from_value`] reads.
#[verifier::rlimit(30)]
proof fn lemma_description_replacement_keeps_paths_c(
    m: Vec<(String, JsonValue)>,
    m2: Vec<(String, JsonValue)>,
    i: int,
    x: JsonValue,
)
    requires
        0 <= i < m@.len(),
        m@[i].0@ == "description"@,
        m2@ == m@.update(i, (m@[i].0, x)),
    ensures
        pointer_spec(JsonValue::Object(m2), "/labels/reason"@) == pointer_spec(JsonValue::Object(m), "/labels/reason"@),
        pointer_spec(JsonValue::Object(m2), "/labels/container"@) == pointer_spec(JsonValue::Object(m), "/labels/container"@),
        pointer_spec(JsonValue::Object(m2), "/labels/app_kubernetes_io_name"@) == pointer_spec(JsonValue::Object(m), "/labels/app_kubernetes_io_name"@),
        pointer_spec(JsonValue::Object(m2), "/labels/app_kubernetes_io_instance"@) == pointer_spec(JsonValue::Object(m), "/labels/app_kubernetes_io_instance"@),
        pointer_spec(JsonValue::Object(m2), "/labels/infrastructure"@) == pointer_spec(JsonValue::Object(m), "/labels/infrastructure"@),
        pointer_spec(JsonValue::Object(m2), "/labels/network"@) == pointer_spec(JsonValue::Object(m), "/labels/network"@),
        pointer_spec(JsonValue::Object(m2), "/annotations/summary"@) == pointer_spec(JsonValue::Object(m), "/annotations/summary"@),
        pointer_spec(JsonValue::Object(m2), "/annotations/runbook_url"@) == pointer_spec(JsonValue::Object(m), "/annotations/runbook_url"@),
{
    lemma_alert_path_tokens();
    reveal_strlit("description");
    reveal_strlit("labels");
    reveal_strlit("annotations");
    assert(alert_keys()[17] != "description"@);
    law_replaced_member_keeps_other_lookups(m, m2, i, x, "/labels/reason"@);
    assert(alert_keys()[17] != "description"@);
    law_replaced_member_keeps_other_lookups(m, m2, i, x, "/labels/container"@);
    assert(alert_keys()[17] != "description"@);
    law_replaced_member_keeps_other_lookups(m, m2, i, x, "/labels/app_kubernetes_io_name"@);
    assert(alert_keys()[17] != "description"@);
    law_replaced_member_keeps_other_lookups(m, m2, i, x, "/labels/app_kubernetes_io_instance"@);
    assert(alert_keys()[17] != "description"@);
    law_replaced_member_keeps_other_lookups(m, m2, i, x, "/labels/infrastructure"@);
    assert(alert_keys()[17] != "description"@);
    law_replaced_member_keeps_other_lookups(m, m2, i, x, "/labels/network"@);
    assert(alert_keys()[18] != "description"@);
    law_replaced_member_keeps_other_lookups(m, m2, i, x, "/annotations/summary"@);
    assert(alert_keys()[18] != "description"@);
    law_replaced_member_keeps_other_lookups(m, m2, i, x, "/annotations/runbook_url"@);
}

/// The first member with key `description` holding a non-string value
/// makes the description absent.
proof fn lemma_non_string_description_absent(m2: Vec<(String, JsonValue)>, i: int)
    requires
        0 <= i < m2@.len(),
        m2@[i].0@ == "description"@,
        forall|j: int| 0 <= j < i ==> m2@[j].0@ != "description"@,
        !(m2@[i].1 matches JsonValue::String(_)),
    ensures
        str_at(JsonValue::Object(m2), "/description"@) is None,
{
    reveal_strlit("/description");
    reveal_strlit("description");
    lemma_pointer_single_key(m2, "/description"@);
    assert("/description"@.drop_first() =~= "description"@);
    lemma_object_get_first(m2@, i, "description"@);
}

/// A value that is not a string at the optional path `/description` (the
/// first member with that key) is ignored: the missing fields do not
/// change, the description extracts as absent, and every other field
/// extracts as before.
pub proof fn law_alert_non_string_description_is_dropped(
    m: Vec<(String, JsonValue)>,
    m2: Vec<(String, JsonValue)>,
    i: int,
    x: JsonValue,
    a: Alert,
)
    requires
        0 <= i < m@.len(),
        m@[i].0@ == "description"@,
        forall|j: int| 0 <= j < i ==> m@[j].0@ != "description"@,
        m2@ == m@.update(i, (m@[i].0, x)),
        !(x matches JsonValue::String(_)),
    ensures
        alert_missing_spec(JsonValue::Object(m2)) == alert_missing_spec(JsonValue::Object(m)),
        str_at(JsonValue::Object(m2), "/description"@) is None,
        alert_fields_spec(a, JsonValue::Object(m)) ==> alert_fields_spec(
            Alert { description: None, ..a },
            JsonValue::Object(m2),
        ),
{
    lemma_description_replacement_keeps_paths_a(m, m2, i, x);
    lemma_description_replacement_keeps_paths_b(m, m2, i, x);
    lemma_description_replacement_keeps_paths_c(m, m2, i, x);
    assert forall|j: int| 0 <= j < i implies m2@[j].0@ != "description"@ by {
        assert(m2@[j] == m@[j]);
    }
    lemma_non_string_description_absent(m2, i);
}

/// Each required field of an extracted alert is the value of the payload
/// member with that field's own key (`id`, `name`, `status`, `severity`,
/// `lastReceived`, `fingerprint`, `firingCounter`).
#[verifier::spinoff_prover]
#[verifier::rlimit(60)]
pub proof fn law_alert_required_fields_follow_their_keys(m: Vec<(String, JsonValue)>, a: Alert)
    requires
        alert_fields_spec(a, JsonValue::Object(m)),
    ensures
        member_string(m@, "id"@) == Some(a.id@),
        member_string(m@, "name"@) == Some(a.name@),
        member_string(m@, "status"@) == Some(a.status@),
        member_string(m@, "severity"@) == Some(a.severity@),
        member_string(m@, "lastReceived"@) == Some(a.last_received@),
        member_string(m@, "fingerprint"@) == Some(a.fingerprint@),
        member_u64(m@, "firingCounter"@) == Some(a.firing_counter),
{
    reveal_strlit("/id");
    reveal_strlit("id");
    assert("/id"@ =~= seq!['/'] + "id"@);
    lemma_plain_path(m, "/id"@, "id"@);
    reveal_strlit("/name");
    reveal_strlit("name");
    assert("/name"@ =~= seq!['/'] + "name"@);
    lemma_plain_path(m, "/name"@, "name"@);
    reveal_strlit("/status");
    reveal_strlit("status");
    assert("/status"@ =~= seq!['/'] + "status"@);
    lemma_plain_path(m, "/status"@, "status"@);
    reveal_strlit("/severity");
    reveal_strlit("severity");
    assert("/severity"@ =~= seq!['/'] + "severity"@);
    lemma_plain_path(m, "/severity"@, "severity"@);
    reveal_strlit("/lastReceived");
    reveal_strlit("lastReceived");
    assert("/lastReceived"@ =~= seq!['/'] + "lastReceived"@);
    lemma_plain_path(m, "/lastReceived"@, "lastReceived"@);
    reveal_strlit("/fingerprint");
    reveal_strlit("fingerprint");
    assert("/fingerprint"@ =~= seq!['/'] + "fingerprint"@);
    lemma_plain_path(m, "/fingerprint"@, "fingerprint"@);
    reveal_strlit("/firingCounter");
    reveal_strlit("firingCounter");
    assert("/firingCounter"@ =~= seq!['/'] + "firingCounter"@);
    lemma_plain_path(m, "/firingCounter"@, "firingCounter"@);
}

/// Each of `startedAt`, `firingStartTime`, `assignee`, `endsAt` and
/// `generatorURL` is extracted from the payload member with its own key:
/// the string there, or nothing when that member is absent or not a
/// string.
#[verifier::spinoff_prover]
#[verifier::rlimit(60)]
pub proof fn law_alert_timing_fields_follow_their_keys(m: Vec<(String, JsonValue)>, a: Alert)
    requires
        alert_fields_spec(a, JsonValue::Object(m)),
    ensures
        opt_view(a.started_at) == member_string(m@, "startedAt"@),
        opt_view(a.firing_start_time) == member_string(m@, "firingStartTime"@),
        opt_view(a.assignee) == member_string(m@, "assignee"@),
        opt_view(a.ends_at) == member_string(m@, "endsAt"@),
        opt_view(a.generator_url) == member_string(m@, "generatorURL"@),
{
    reveal_strlit("/startedAt");
    reveal_strlit("startedAt");
    assert("/startedAt"@ =~= seq!['/'] + "startedAt"@);
    lemma_plain_path(m, "/startedAt"@, "startedAt"@);
    reveal_strlit("/firingStartTime");
    reveal_strlit("firingStartTime");
    assert("/firingStartTime"@ =~= seq!['/'] + "firingStartTime"@);
    lemma_plain_path(m, "/firingStartTime"@, "firingStartTime"@);
    reveal_strlit("/assignee");
    reveal_strlit("assignee");
    assert("/assignee"@ =~= seq!['/'] + "assignee"@);
    lemma_plain_path(m, "/assignee"@, "assignee"@);
    reveal_strlit("/endsAt");
    reveal_strlit("endsAt");
    assert("/endsAt"@ =~= seq!['/'] + "endsAt"@);
    lemma_plain_path(m, "/endsAt"@, "endsAt"@);
    reveal_strlit("/generatorURL");
    reveal_strlit("generatorURL");
    assert("/generatorURL"@ =~= seq!['/'] + "generatorURL"@);
    lemma_plain_path(m, "/generatorURL"@, "generatorURL"@);
}

/// Each of `description`, `rca_summary` and `namespace` is extracted from
/// the payload member with its own key: the string there, or nothing when
/// that member is absent or not a string.
#[verifier::spinoff_prover]
#[verifier::rlimit(60)]
pub proof fn law_alert_context_fields_follow_their_keys(m: Vec<(String, JsonValue)>, a: Alert)
    requires
        alert_fields_spec(a, JsonValue::Object(m)),
    ensures
        opt_view(a.description) == member_string(m@, "description"@),
        opt_view(a.rca_summary) == member_string(m@, "rca_summary"@),
        opt_view(a.namespace) == member_string(m@, "namespace"@),
{
    reveal_strlit("/description");
    reveal_strlit("description");
    assert("/description"@ =~= seq!['/'] + "description"@);
    lemma_plain_path(m, "/description"@, "description"@);
    reveal_strlit("/rca_summary");
    reveal_strlit("rca_summary");
    assert("/rca_summary"@ =~= seq!['/'] + "rca_summary"@);
    lemma_plain_path(m, "/rca_summary"@, "rca_summary"@);
    reveal_strlit("/namespace");
    reveal_strlit("namespace");
    assert("/namespace"@ =~= seq!['/'] + "namespace"@);
    lemma_plain_path(m, "/namespace"@, "namespace"@);
}

/// The correlated parent's name and fingerprint are extracted from the
/// payload members `correlated_parent_alert` and
/// `correlated_parent_fingerprint`: the string there, or nothing when that
/// member is absent or not a string.
#[verifier::spinoff_prover]
#[verifier::rlimit(60)]
pub proof fn law_alert_correlation_fields_follow_their_keys(m: Vec<(String, JsonValue)>, a: Alert)
    requires
        alert_fields_spec(a, JsonValue::Object(m)),
    ensures
        opt_view(a.correlated_parent_alert) == member_string(m@, "correlated_parent_alert"@),
        opt_view(a.correlated_parent_fingerprint) == member_string(m@, "correlated_parent_fingerprint"@),
{
    reveal_strlit("/correlated_parent_alert");
    reveal_strlit("correlated_parent_alert");
    assert("/correlated_parent_alert"@ =~= seq!['/'] + "correlated_parent_alert"@);
    lemma_plain_path(m, "/correlated_parent_alert"@, "correlated_parent_alert"@);
    reveal_strlit("/correlated_parent_fingerprint");
    reveal_strlit("correlated_parent_fingerprint");
    assert("/correlated_parent_fingerprint"@ =~= seq!['/'] + "correlated_parent_fingerprint"@);
    lemma_plain_path(m, "/correlated_parent_fingerprint"@, "correlated_parent_fingerprint"@);
}

/// The pod, reason, container and application name are the strings under
/// their own keys in the payload's `labels` object.
#[verifier::spinoff_prover]
#[verifier::rlimit(60)]
pub proof fn law_alert_labels_follow_their_keys(m: Vec<(String, JsonValue)>, a: Alert)
    requires
        alert_fields_spec(a, JsonValue::Object(m)),
    ensures
        opt_view(a.labels.pod) == nested_member_string(m@, "labels"@, "pod"@),
        opt_view(a.labels.reason) == nested_member_string(m@, "labels"@, "reason"@),
        opt_view(a.labels.container) == nested_member_string(m@, "labels"@, "container"@),
        opt_view(a.labels.app_name) == nested_member_string(m@, "labels"@, "app_kubernetes_io_name"@),
{
    reveal_strlit("/labels/pod");
    reveal_strlit("labels");
    reveal_strlit("pod");
    assert("/labels/pod"@ =~= seq!['/'] + "labels"@ + seq!['/'] + "pod"@);
    lemma_plain_two_keys(m, "/labels/pod"@, "labels"@, "pod"@);
    reveal_strlit("/labels/reason");
    reveal_strlit("labels");
    reveal_strlit("reason");
    assert("/labels/reason"@ =~= seq!['/'] + "labels"@ + seq!['/'] + "reason"@);
    lemma_plain_two_keys(m, "/labels/reason"@, "labels"@, "reason"@);
    reveal_strlit("/labels/container");
    reveal_strlit("labels");
    reveal_strlit("container");
    assert("/labels/container"@ =~= seq!['/'] + "labels"@ + seq!['/'] + "container"@);
    lemma_plain_two_keys(m, "/labels/container"@, "labels"@, "container"@);
    reveal_strlit("/labels/app_kubernetes_io_name");
    reveal_strlit("labels");
    reveal_strlit("app_kubernetes_io_name");
    assert("/labels/app_kubernetes_io_name"@ =~= seq!['/'] + "labels"@ + seq!['/'] + "app_kubernetes_io_name"@);
    lemma_plain_two_keys(m, "/labels/app_kubernetes_io_name"@, "labels"@, "app_kubernetes_io_name"@);
}

/// The instance, infrastructure and network labels, and the summary and
/// runbook annotations, are the strings under their own keys in the
/// payload's `labels` and `annotations` objects.
#[verifier::spinoff_prover]
#[verifier::rlimit(60)]
pub proof fn law_alert_other_labels_and_annotations_follow_their_keys(m: Vec<(String, JsonValue)>, a: Alert)
    requires
        alert_fields_spec(a, JsonValue::Object(m)),
    ensures
        opt_view(a.labels.instance) == nested_member_string(m@, "labels"@, "app_kubernetes_io_instance"@),
        opt_view(a.labels.infrastructure) == nested_member_string(m@, "labels"@, "infrastructure"@),
        opt_view(a.labels.network) == nested_member_string(m@, "labels"@, "network"@),
        opt_view(a.annotations.summary) == nested_member_string(m@, "annotations"@, "summary"@),
        opt_view(a.annotations.runbook_url) == nested_member_string(m@, "annotations"@, "runbook_url"@),
{
    reveal_strlit("/labels/app_kubernetes_io_instance");
    reveal_strlit("labels");
    reveal_strlit("app_kubernetes_io_instance");
    assert("/labels/app_kubernetes_io_instance"@ =~= seq!['/'] + "labels"@ + seq!['/'] + "app_kubernetes_io_instance"@);
    lemma_plain_two_keys(m, "/labels/app_kubernetes_io_instance"@, "labels"@, "app_kubernetes_io_instance"@);
    reveal_strlit("/labels/infrastructure");
    reveal_strlit("labels");
    reveal_strlit("infrastructure");
    assert("/labels/infrastructure"@ =~= seq!['/'] + "labels"@ + seq!['/'] + "infrastructure"@);
    lemma_plain_two_keys(m, "/labels/infrastructure"@, "labels"@, "infrastructure"@);
    reveal_strlit("/labels/network");
    reveal_strlit("labels");
    reveal_strlit("network");
    assert("/labels/network"@ =~= seq!['/'] + "labels"@ + seq!['/'] + "network"@);
    lemma_plain_two_keys(m, "/labels/network"@, "labels"@, "network"@);
    reveal_strlit("/annotations/summary");
    reveal_strlit("annotations");
    reveal_strlit("summary");
    assert("/annotations/summary"@ =~= seq!['/'] + "annotations"@ + seq!['/'] + "summary"@);
    lemma_plain_two_keys(m, "/annotations/summary"@, "annotations"@, "summary"@);
    reveal_strlit("/annotations/runbook_url");
    reveal_strlit("annotations");
    reveal_strlit("runbook_url");
    assert("/annotations/runbook_url"@ =~= seq!['/'] + "annotations"@ + seq!['/'] + "runbook_url"@);
    lemma_plain_two_keys(m, "/annotations/runbook_url"@, "annotations"@, "runbook_url"@);
}

} // verus!
