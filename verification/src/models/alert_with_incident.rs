//! An alert payload already correlated to a Keep incident.

use vstd::prelude::*;
use crate::json::JsonValue;
use crate::models::alert::{Alert, alert_fields_spec, alert_missing_spec};
use crate::models::{missing_if, req_str, str_at, strings_view};

verus! {

/// An [`Alert`] payload that additionally links to a Keep incident.
#[derive(Debug, Clone)]
pub struct AlertWithIncident {
    pub alert: Alert,
    pub incident_id: String,
    pub incident_name: String,
}

/// The required-field paths that `v` fails: those of the alert, then
/// `/incident_id` and `/incident_name`.
pub open spec fn alert_with_incident_missing_spec(v: JsonValue) -> Seq<Seq<char>> {
    alert_missing_spec(v)
        + missing_if(str_at(v, "/incident_id"@) is Some, "/incident_id"@)
        + missing_if(str_at(v, "/incident_name"@) is Some, "/incident_name"@)
}

impl AlertWithIncident {
    /// Validates and extracts every field [`Alert::from_value`] requires,
    /// plus `incident_id` and `incident_name`.
    ///
    /// Returns `Err(missing)` combining the alert's missing fields with this
    /// payload's own; `Ok` exactly when there is none.
    pub fn from_value(v: &JsonValue) -> (r: Result<AlertWithIncident, Vec<String>>)
        ensures
            match r {
                Ok(x) => {
                    &&& alert_with_incident_missing_spec(*v).len() == 0
                    &&& alert_fields_spec(x.alert, *v)
                    &&& str_at(*v, "/incident_id"@) == Some(x.incident_id@)
                    &&& str_at(*v, "/incident_name"@) == Some(x.incident_name@)
                },
                Err(m) => alert_with_incident_missing_spec(*v).len() > 0 && strings_view(m@)
                    == alert_with_incident_missing_spec(*v),
            },
    {
        let mut missing: Vec<String> = Vec::new();
        let alert = match Alert::from_value(v) {
            Ok(a) => Some(a),
            Err(mut alert_missing) => {
                missing.append(&mut alert_missing);
                None
            },
        };
        assert(strings_view(missing@) =~= alert_missing_spec(*v));
        let incident_id = req_str(v, "/incident_id", &mut missing);
        let incident_name = req_str(v, "/incident_name", &mut missing);
        assert(strings_view(missing@) =~= alert_with_incident_missing_spec(*v));
        if missing.len() > 0 {
            return Err(missing);
        }
        Ok(AlertWithIncident {
            alert: alert.unwrap(),
            incident_id: incident_id.unwrap(),
            incident_name: incident_name.unwrap(),
        })
    }
}

} // verus!

verus! {

/// A payload accepted as an alert with an incident is accepted as an alert,
/// and the alert's missing fields come first in its missing fields.
pub proof fn law_alert_with_incident_extends_alert(v: JsonValue)
    ensures
        alert_with_incident_missing_spec(v).len() == 0 ==> alert_missing_spec(v).len() == 0,
        alert_with_incident_missing_spec(v).subrange(0, alert_missing_spec(v).len() as int)
            == alert_missing_spec(v),
{
    assert(alert_with_incident_missing_spec(v).subrange(0, alert_missing_spec(v).len() as int)
        =~= alert_missing_spec(v));
}

} // verus!
