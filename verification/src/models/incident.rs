//! The Keep incident payload: validated extraction from arbitrary JSON.

use vstd::prelude::*;
use crate::json::{
    deref_opt, lemma_plain_path, member_string, object_get_spec, pointer_spec, JsonValue,
};
use crate::models::{missing_if, opt_str, opt_view, req_str, str_at, strings_view};
use crate::text::{parse_unsigned, unsigned_parse};

verus! {

/// Incident fields validated and extracted from a Keep incident payload.
#[derive(Debug, Clone)]
pub struct Incident {
    pub id: String,
    /// Used as the Zulip topic name.
    pub topic_name: String,
    pub description: Option<String>,
    pub assignee: Option<String>,
    pub severity: Option<String>,
    pub alerts_count: Option<u64>,
    /// Linear issue identifier (e.g. `CORE-123`).
    pub linear_id: Option<String>,
    /// Linear issue URL.
    pub linear_url: Option<String>,
    /// Kubernetes namespace, used to route to the Zulip stream.
    pub namespace: Option<String>,
    pub status: Option<String>,
}

/// The count at `path`: a `u64` number, or a string that parses as one.
pub open spec fn count_at(v: JsonValue, path: Seq<char>) -> Option<u64> {
    match pointer_spec(v, path) {
        Some(JsonValue::Number(Some(n))) => Some(n),
        Some(JsonValue::String(s)) => match unsigned_parse(s@, u64::MAX as nat) {
            Some(n) => Some(n as u64),
            None => None,
        },
        _ => None,
    }
}

/// The required-field paths that `v` fails, in check order.
pub open spec fn incident_missing_spec(v: JsonValue) -> Seq<Seq<char>> {
    missing_if(str_at(v, "/id"@) is Some, "/id"@)
        + missing_if(str_at(v, "/topic_name"@) is Some, "/topic_name"@)
}

/// `i` holds exactly the fields that [`Incident::from_value`] extracts from `v`.
pub open spec fn incident_fields_spec(i: Incident, v: JsonValue) -> bool {
    &&& str_at(v, "/id"@) == Some(i.id@)
    &&& str_at(v, "/topic_name"@) == Some(i.topic_name@)
    &&& opt_view(i.description) == str_at(v, "/description"@)
    &&& opt_view(i.assignee) == str_at(v, "/assignee"@)
    &&& opt_view(i.severity) == str_at(v, "/severity"@)
    &&& i.alerts_count == count_at(v, "/alerts_count"@)
    &&& opt_view(i.linear_id) == str_at(v, "/linear_id"@)
    &&& opt_view(i.linear_url) == str_at(v, "/linear_url"@)
    &&& opt_view(i.namespace) == str_at(v, "/namespace"@)
    &&& opt_view(i.status) == str_at(v, "/status"@)
}

/// Extracts a count: a `u64` number, or a string holding one.
fn count(v: &JsonValue, path: &str) -> (r: Option<u64>)
    ensures
        r == count_at(*v, path@),
{
    let found = v.pointer(path);
    proof {
        assert(deref_opt(found) == pointer_spec(*v, path@));
    }
    match found {
        Some(JsonValue::Number(Some(n))) => Some(*n),
        Some(JsonValue::String(s)) => parse_unsigned(s.as_str(), u64::MAX),
        _ => None,
    }
}

impl Incident {
    /// Validates and extracts the well-known fields from a JSON value.
    ///
    /// Returns `Err(missing)` with the path of every required field that is
    /// absent or not a string; `Ok` exactly when there is none.
    pub fn from_value(v: &JsonValue) -> (r: Result<Incident, Vec<String>>)
        ensures
            match r {
                Ok(i) => incident_missing_spec(*v).len() == 0 && incident_fields_spec(i, *v),
                Err(m) => incident_missing_spec(*v).len() > 0 && strings_view(m@) == incident_missing_spec(*v),
            },
    {
        let mut missing: Vec<String> = Vec::new();
        let id = req_str(v, "/id", &mut missing);
        let topic_name = req_str(v, "/topic_name", &mut missing);
        assert(strings_view(missing@) =~= incident_missing_spec(*v));
        if missing.len() > 0 {
            return Err(missing);
        }
        Ok(Incident {
            id: id.unwrap(),
            topic_name: topic_name.unwrap(),
            description: opt_str(v, "/description"),
            assignee: opt_str(v, "/assignee"),
            severity: opt_str(v, "/severity"),
            alerts_count: count(v, "/alerts_count"),
            linear_id: opt_str(v, "/linear_id"),
            linear_url: opt_str(v, "/linear_url"),
            namespace: opt_str(v, "/namespace"),
            status: opt_str(v, "/status"),
        })
    }
}

/// The id, topic name, description, assignee and severity of an extracted
/// incident are the strings under their own keys in the payload.
#[verifier::spinoff_prover]
#[verifier::rlimit(60)]
pub proof fn law_incident_fields_follow_their_keys(m: Vec<(String, JsonValue)>, i: Incident)
    requires
        incident_fields_spec(i, JsonValue::Object(m)),
    ensures
        member_string(m@, "id"@) == Some(i.id@),
        member_string(m@, "topic_name"@) == Some(i.topic_name@),
        opt_view(i.description) == member_string(m@, "description"@),
        opt_view(i.assignee) == member_string(m@, "assignee"@),
        opt_view(i.severity) == member_string(m@, "severity"@),
{
    reveal_strlit("/id");
    reveal_strlit("id");
    assert("/id"@ =~= seq!['/'] + "id"@);
    lemma_plain_path(m, "/id"@, "id"@);
    reveal_strlit("/topic_name");
    reveal_strlit("topic_name");
    assert("/topic_name"@ =~= seq!['/'] + "topic_name"@);
    lemma_plain_path(m, "/topic_name"@, "topic_name"@);
    reveal_strlit("/description");
    reveal_strlit("description");
    assert("/description"@ =~= seq!['/'] + "description"@);
    lemma_plain_path(m, "/description"@, "description"@);
    reveal_strlit("/assignee");
    reveal_strlit("assignee");
    assert("/assignee"@ =~= seq!['/'] + "assignee"@);
    lemma_plain_path(m, "/assignee"@, "assignee"@);
    reveal_strlit("/severity");
    reveal_strlit("severity");
    assert("/severity"@ =~= seq!['/'] + "severity"@);
    lemma_plain_path(m, "/severity"@, "severity"@);
}

/// The alert count (a number, or a string holding one), the Linear id and
/// URL, the namespace and the status of an extracted incident come from
/// the payload members with their own keys.
#[verifier::spinoff_prover]
#[verifier::rlimit(60)]
pub proof fn law_incident_tracking_fields_follow_their_keys(m: Vec<(String, JsonValue)>, i: Incident)
    requires
        incident_fields_spec(i, JsonValue::Object(m)),
    ensures
        i.alerts_count == match object_get_spec(m@, "alerts_count"@) {
            Some(JsonValue::Number(Some(n))) => Some(n),
            Some(JsonValue::String(s)) => match unsigned_parse(s@, u64::MAX as nat) {
                Some(n) => Some(n as u64),
                None => None,
            },
            _ => None,
        },
        opt_view(i.linear_id) == member_string(m@, "linear_id"@),
        opt_view(i.linear_url) == member_string(m@, "linear_url"@),
        opt_view(i.namespace) == member_string(m@, "namespace"@),
        opt_view(i.status) == member_string(m@, "status"@),
{
    reveal_strlit("/alerts_count");
    reveal_strlit("alerts_count");
    assert("/alerts_count"@ =~= seq!['/'] + "alerts_count"@);
    lemma_plain_path(m, "/alerts_count"@, "alerts_count"@);
    reveal_strlit("/linear_id");
    reveal_strlit("linear_id");
    assert("/linear_id"@ =~= seq!['/'] + "linear_id"@);
    lemma_plain_path(m, "/linear_id"@, "linear_id"@);
    reveal_strlit("/linear_url");
    reveal_strlit("linear_url");
    assert("/linear_url"@ =~= seq!['/'] + "linear_url"@);
    lemma_plain_path(m, "/linear_url"@, "linear_url"@);
    reveal_strlit("/namespace");
    reveal_strlit("namespace");
    assert("/namespace"@ =~= seq!['/'] + "namespace"@);
    lemma_plain_path(m, "/namespace"@, "namespace"@);
    reveal_strlit("/status");
    reveal_strlit("status");
    assert("/status"@ =~= seq!['/'] + "status"@);
    lemma_plain_path(m, "/status"@, "status"@);
}

} // verus!
