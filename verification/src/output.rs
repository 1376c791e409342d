//! Delivery decisions for Zulip: which message to post or edit, where, and
//! what a Zulip reply means.
//!
//! The alert's fingerprint is the correlation key: the first time a
//! fingerprint is seen a new message is posted and its id stored; later
//! updates edit the stored message.  The HTTP exchanges themselves are done
//! by the caller, which hands the reply to [`post_result`] and records the
//! outcome with [`record_post`].

use vstd::prelude::*;
use crate::config::Config;
use crate::datetime::{utc_rendering, ISO_MILLIS_FORMAT};
use crate::formatter::{markdown_spec, to_markdown};
use crate::message_store::MessageStore;
use crate::models::alert::{Alert, EnrichedAlert};
use crate::models::opt_view;
use crate::text::{decimal, decimal_spec, str_eq, to_owned_string};

verus! {

/// The message id reported for a post made in dry-run mode.
pub const DRY_RUN_MESSAGE_ID: u64 = 0;

/// What to do with a rendered alert.
#[derive(Debug)]
pub enum SendAction {
    /// Zulip is enabled but not fully configured: send nothing.
    Skip,
    /// Edit the message already posted for this fingerprint.
    Patch { message_id: u64, stream: String, topic: String },
    /// Post a new message.
    Post { stream: String, topic: String },
}

/// A delivery plan: the rendered message, the action, and whether the
/// Zulip calls are replaced by a dry run (`ZULIP_ENABLED=false`).
#[derive(Debug)]
pub struct SendPlan {
    pub markdown: String,
    pub action: SendAction,
    pub dry_run: bool,
}

/// The shape of a delivery decision.
pub enum ActionKind {
    Skip,
    Patch(u64),
    Post,
}

/// The decision for a fingerprint given the stored messages: skip when
/// Zulip is enabled but not configured, edit the stored message when there
/// is one, post otherwise.
pub open spec fn action_kind_spec(config: Config, stored: Map<Seq<char>, (u64, u64)>, fingerprint: Seq<char>) -> ActionKind {
    if config.zulip_enabled && !config.zulip_configured_spec() {
        ActionKind::Skip
    } else if stored.contains_key(fingerprint) {
        ActionKind::Patch(stored[fingerprint].0)
    } else {
        ActionKind::Post
    }
}

/// The kind of an action.
pub open spec fn kind_of(a: SendAction) -> ActionKind {
    match a {
        SendAction::Skip => ActionKind::Skip,
        SendAction::Patch { message_id, .. } => ActionKind::Patch(message_id),
        SendAction::Post { .. } => ActionKind::Post,
    }
}

/// The stream and topic of a non-skip action are the alert's routing.
pub open spec fn routed_spec(a: SendAction, alert: Alert, config: Config) -> bool {
    match a {
        SendAction::Skip => true,
        SendAction::Patch { stream, topic, .. } => stream@ == config.stream_for_namespace_spec(
            opt_view(alert.namespace),
        ) && topic@ == config.zulip_topic_spec(),
        SendAction::Post { stream, topic } => stream@ == config.stream_for_namespace_spec(
            opt_view(alert.namespace),
        ) && topic@ == config.zulip_topic_spec(),
    }
}

/// Decides how a rendered alert is delivered.
pub fn plan_delivery(alert: &Alert, config: &Config, messages: &MessageStore, markdown: String) -> (r: SendPlan)
    ensures
        r.markdown == markdown,
        r.dry_run == !config.zulip_enabled,
        kind_of(r.action) == action_kind_spec(*config, messages@, alert.fingerprint@),
        routed_spec(r.action, *alert, *config),
{
    let dry_run = !config.zulip_enabled;
    if config.zulip_enabled && !config.zulip_configured() {
        return SendPlan { markdown, action: SendAction::Skip, dry_run };
    }
    let namespace: Option<&str> = match &alert.namespace {
        Some(ns) => Some(ns.as_str()),
        None => None,
    };
    let stream = to_owned_string(config.stream_for_namespace(namespace));
    let topic = config.zulip_topic();
    let action = match messages.get(alert.fingerprint.as_str()) {
        Some(message_id) => SendAction::Patch { message_id, stream, topic },
        None => SendAction::Post { stream, topic },
    };
    SendPlan { markdown, action, dry_run }
}

/// Renders an enriched alert and decides how it is delivered.
pub fn plan_send(alert: &EnrichedAlert, config: &Config, messages: &MessageStore) -> (r: SendPlan)
    ensures
        exists|now: Seq<char>, secs: i64, nanos: u32|
            utc_rendering(secs, nanos, ISO_MILLIS_FORMAT@) == Some(now) && r.markdown@
                == markdown_spec(alert.alert, *config, now),
        r.dry_run == !config.zulip_enabled,
        kind_of(r.action) == action_kind_spec(*config, messages@, alert.alert.fingerprint@),
        routed_spec(r.action, alert.alert, *config),
{
    let markdown = to_markdown(&alert.alert, config);
    plan_delivery(&alert.alert, config, messages, markdown)
}

// ---------------------------------------------------------------------------
// Zulip API
// ---------------------------------------------------------------------------

/// The decoded subset of a Zulip `POST /api/v1/messages` reply.
#[derive(Debug, Clone)]
pub struct ZulipSendResponse {
    /// The id of the new message, present on success.
    pub id: Option<u64>,
    pub result: String,
}

/// Why a post did not yield a message id.
#[derive(Debug, Clone, Copy, PartialEq, Eq)]
pub enum PostFailure {
    /// The HTTP status was not a success.
    HttpStatus,
    /// The reply body was not a Zulip reply.
    Unparseable,
    /// The reply's `result` was not `success`.
    NotSuccess,
    /// The reply had no `id`.
    MissingId,
    /// The request could not be sent or its reply not received.
    RequestFailed,
}

/// The outcome of a post: the checks in order status, body, `result`,
/// `id`.
pub open spec fn post_outcome_spec(status_success: bool, reply: Option<ZulipSendResponse>) -> Result<u64, PostFailure> {
    if !status_success {
        Err(PostFailure::HttpStatus)
    } else {
        match reply {
            None => Err(PostFailure::Unparseable),
            Some(r) => if r.result@ != "success"@ {
                Err(PostFailure::NotSuccess)
            } else {
                match r.id {
                    Some(id) => Ok(id),
                    None => Err(PostFailure::MissingId),
                }
            },
        }
    }
}

/// Interprets the reply to a post: the new message id, or why there is
/// none.
pub fn post_outcome(status_success: bool, reply: &Option<ZulipSendResponse>) -> (r: Result<u64, PostFailure>)
    ensures
        r == post_outcome_spec(status_success, *reply),
{
    if !status_success {
        return Err(PostFailure::HttpStatus);
    }
    match reply {
        None => Err(PostFailure::Unparseable),
        Some(resp) => {
            if !str_eq(resp.result.as_str(), "success") {
                return Err(PostFailure::NotSuccess);
            }
            match resp.id {
                Some(id) => Ok(id),
                None => Err(PostFailure::MissingId),
            }
        },
    }
}

/// The result of a post: the dry-run id without any request in dry-run
/// mode, the reply's outcome otherwise.
pub open spec fn post_result_spec(dry_run: bool, status_success: bool, reply: Option<ZulipSendResponse>) -> Result<u64, PostFailure> {
    if dry_run {
        Ok(DRY_RUN_MESSAGE_ID)
    } else {
        post_outcome_spec(status_success, reply)
    }
}

/// The result of posting a message: in dry-run mode [`DRY_RUN_MESSAGE_ID`]
/// (no request is made, and the status and reply are not read), otherwise
/// the outcome of the reply.
pub fn post_result(dry_run: bool, status_success: bool, reply: &Option<ZulipSendResponse>) -> (r: Result<u64, PostFailure>)
    ensures
        r == post_result_spec(dry_run, status_success, *reply),
{
    if dry_run {
        Ok(DRY_RUN_MESSAGE_ID)
    } else {
        post_outcome(status_success, reply)
    }
}

/// The stored messages after a post's outcome is recorded at `now`.
pub open spec fn record_post_spec(
    stored: Map<Seq<char>, (u64, u64)>,
    fingerprint: Seq<char>,
    outcome: Result<u64, PostFailure>,
    now: u64,
) -> Map<Seq<char>, (u64, u64)> {
    match outcome {
        Ok(id) => stored.insert(fingerprint, (id, now)),
        Err(_) => stored,
    }
}

/// Records the outcome of a post: a successful post stores its message id
/// for the fingerprint at time `now`; a failed post leaves the store as it
/// was.
pub fn record_post(messages: &mut MessageStore, fingerprint: String, outcome: Result<u64, PostFailure>, now: u64)
    ensures
        final(messages)@ == record_post_spec(old(messages)@, fingerprint@, outcome, now),
{
    match outcome {
        Ok(id) => messages.insert(fingerprint, id, now),
        Err(_) => {},
    }
}

/// The URL that new messages are posted to.
pub open spec fn messages_url_spec(host: Seq<char>) -> Seq<char> {
    "https://"@ + host + "/api/v1/messages"@
}

/// `https://{host}/api/v1/messages`.
pub fn messages_url(host: &str) -> (r: String)
    ensures
        r@ == messages_url_spec(host@),
{
    let mut out = to_owned_string("https://");
    out.append(host);
    out.append("/api/v1/messages");
    out
}

/// `https://{host}/api/v1/messages/{message_id}`.
pub fn message_url(host: &str, message_id: u64) -> (r: String)
    ensures
        r@ == messages_url_spec(host@) + "/"@ + decimal_spec(message_id as nat),
{
    let mut out = messages_url(host);
    out.append("/");
    out.append(decimal(message_id).as_str());
    out
}

} // verus!

verus! {

/// Deduplication: once a post for a fingerprint has been recorded with its
/// message id, the next delivery for that fingerprint edits that message
/// (unless delivery is skipped for missing configuration).
pub proof fn law_recorded_post_is_edited_next(
    config: Config,
    stored: Map<Seq<char>, (u64, u64)>,
    fingerprint: Seq<char>,
    message_id: u64,
    now: u64,
)
    requires
        !(config.zulip_enabled && !config.zulip_configured_spec()),
    ensures
        action_kind_spec(config, stored.insert(fingerprint, (message_id, now)), fingerprint)
            == ActionKind::Patch(message_id),
{
}

/// The first delivery of a fingerprint that is not stored posts a new
/// message (unless delivery is skipped for missing configuration).
pub proof fn law_unknown_fingerprint_is_posted(
    config: Config,
    stored: Map<Seq<char>, (u64, u64)>,
    fingerprint: Seq<char>,
)
    requires
        !(config.zulip_enabled && !config.zulip_configured_spec()),
        !stored.contains_key(fingerprint),
    ensures
        action_kind_spec(config, stored, fingerprint) == ActionKind::Post,
{
}

/// Once a stored message has expired and been evicted, the next delivery of
/// its fingerprint posts a fresh message.
pub proof fn law_expired_fingerprint_is_posted_again(
    config: Config,
    stored: Map<Seq<char>, (u64, u64)>,
    fingerprint: Seq<char>,
    now: u64,
    ttl: u64,
)
    requires
        !(config.zulip_enabled && !config.zulip_configured_spec()),
        stored.contains_key(fingerprint),
        !crate::message_store::is_fresh(stored[fingerprint].1, now, ttl),
    ensures
        action_kind_spec(config, crate::message_store::fresh_entries(stored, now, ttl), fingerprint)
            == ActionKind::Post,
{
}

/// A post yields a message id exactly when the HTTP status is a success and
/// the reply says `success` and carries an id; the id is the reply's.
pub proof fn law_post_yields_reply_id(status_success: bool, reply: Option<ZulipSendResponse>)
    ensures
        post_outcome_spec(status_success, reply) is Ok <==> (status_success && reply is Some
            && reply->0.result@ == "success"@ && reply->0.id is Some),
        post_outcome_spec(status_success, reply) is Ok ==> post_outcome_spec(status_success, reply)->Ok_0
            == reply->0.id->0,
{
}

/// Deduplication across a delivery: when a post succeeds (or is a dry run)
/// and its outcome is recorded, the next delivery of the same fingerprint
/// edits the posted message; when the post fails, the store is unchanged.
pub proof fn law_recorded_outcome_decides_next_delivery(
    config: Config,
    stored: Map<Seq<char>, (u64, u64)>,
    fingerprint: Seq<char>,
    dry_run: bool,
    status_success: bool,
    reply: Option<ZulipSendResponse>,
    now: u64,
)
    requires
        !(config.zulip_enabled && !config.zulip_configured_spec()),
    ensures
        ({
            let outcome = post_result_spec(dry_run, status_success, reply);
            let after = record_post_spec(stored, fingerprint, outcome, now);
            &&& outcome matches Ok(id) ==> action_kind_spec(config, after, fingerprint) == ActionKind::Patch(id)
            &&& outcome is Err ==> after == stored
            &&& dry_run ==> action_kind_spec(config, after, fingerprint) == ActionKind::Patch(DRY_RUN_MESSAGE_ID)
        }),
{
}

/// Zulip counts as configured exactly when the e-mail, API key, host and
/// default stream are all set; with Zulip enabled, any of them missing makes
/// every delivery skip, whatever is stored.
pub proof fn law_unconfigured_zulip_skips(
    config: Config,
    stored: Map<Seq<char>, (u64, u64)>,
    fingerprint: Seq<char>,
)
    ensures
        config.zulip_configured_spec() <==> (config.zulip_email@.len() > 0 && config.zulip_api_key@.len() > 0
            && config.zulip_host@.len() > 0 && config.zulip_default_stream@.len() > 0),
        config.zulip_enabled && (config.zulip_email@.len() == 0 || config.zulip_api_key@.len() == 0
            || config.zulip_host@.len() == 0 || config.zulip_default_stream@.len() == 0)
            ==> action_kind_spec(config, stored, fingerprint) == ActionKind::Skip,
{
}

} // verus!
