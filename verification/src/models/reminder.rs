//! The daily reminder digest of open alerts and incidents.

use vstd::prelude::*;

verus! {

/// A single open alert, as summarised for the daily reminder digest.
#[derive(Debug, Clone)]
pub struct AlertSummary {
    pub alertname: String,
    pub namespace: Option<String>,
    pub application: Option<String>,
    /// `startTime` in the payload.
    pub start_time: String,
    pub occurrences: u64,
    pub fingerprint: String,
}

/// A single open incident, as summarised for the daily reminder digest.
#[derive(Debug, Clone)]
pub struct IncidentSummary {
    pub name: String,
    pub assignee: Option<String>,
    pub alerts_count: u64,
    pub incident_id: String,
    /// When the incident was opened (`startTime` in the payload).
    pub start_time: String,
}

/// Daily digest of every currently open alert and incident.
#[derive(Debug, Clone)]
pub struct Reminder {
    pub alerts: Vec<AlertSummary>,
    pub incidents: Vec<IncidentSummary>,
    /// Overrides the configured reminder stream for this message when present.
    pub stream: Option<String>,
    /// Overrides the configured reminder topic for this message when present.
    pub topic: Option<String>,
    /// Logical environment this digest was built from; overrides the
    /// configured environment name when present.
    pub environment: Option<String>,
}

} // verus!
