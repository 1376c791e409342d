//! Enrichment of incoming alerts with processing metadata.

use vstd::prelude::*;
use crate::datetime::{utc_now, UtcInstant};
use crate::models::alert::{Alert, EnrichedAlert};
use crate::text::to_owned_string;

verus! {

/// The name this service records as the enricher.
pub open spec fn service_name_spec() -> Seq<char> {
    "notification-service"@
}

/// Enriches an alert with processing metadata: the processing time `now`,
/// the enriched flag, and the service name.
pub fn enrich_at(alert: Alert, now: UtcInstant) -> (r: EnrichedAlert)
    ensures
        r.alert == alert,
        r.processed_at == now,
        r.enriched,
        r.service_name@ == service_name_spec(),
{
    EnrichedAlert {
        alert,
        processed_at: now,
        enriched: true,
        service_name: to_owned_string("notification-service"),
    }
}

/// Enriches an incoming alert with processing metadata, taking the current
/// time as the processing time.
pub fn enrich(alert: Alert) -> (r: EnrichedAlert)
    ensures
        r.alert == alert,
        r.enriched,
        r.service_name@ == service_name_spec(),
{
    enrich_at(alert, utc_now())
}

} // verus!
