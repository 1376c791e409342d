//! Service configuration: values read from the environment, and the URL,
//! stream and topic rules derived from them.

use vstd::prelude::*;
use crate::text::{
    lowercase, lowercase_of, parse_unsigned, str_eq, to_owned_string, trim, trim_end_slashes,
    trim_end_slashes_spec, trim_spec, unsigned_parse,
};

verus! {

/// Application configuration.
#[derive(Debug, Clone)]
pub struct Config {
    /// TCP port the HTTP server listens on. Defaults to `8080`.
    pub port: u16,
    /// Keep base URL used to build per-alert deep-links; empty when not
    /// configured.
    pub keep_base_url: String,
    /// Graylog base URL including the saved-search path and `?q=` suffix;
    /// empty to omit the Graylog link from messages.
    pub graylog_base_url: String,
    /// Logical environment name (e.g. `staging`), used in the Zulip topic.
    pub environment_name: String,
    /// Zulip bot e-mail address used for API authentication.
    pub zulip_email: String,
    /// Zulip bot API key.
    pub zulip_api_key: String,
    /// Zulip server hostname.
    pub zulip_host: String,
    /// Zulip stream used when the alert namespace has no explicit mapping.
    pub zulip_default_stream: String,
    /// Namespace → Zulip stream pairs; a lookup takes the first pair with
    /// the namespace.
    pub zulip_namespace_streams: Vec<(String, String)>,
    /// When `false`, Zulip API calls are replaced by a dry run.
    pub zulip_enabled: bool,
    /// Days a fingerprint → message-id mapping is kept. Defaults to `7`.
    pub message_ttl_days: u64,
    /// Timeout in seconds of every outbound Zulip request. Defaults to `10`.
    pub zulip_request_timeout_secs: u64,
}

/// The raw values of the environment variables the configuration is read
/// from; `None` when a variable is unset (or not valid Unicode).
#[derive(Debug, Clone)]
pub struct EnvVars {
    /// `PORT`
    pub port: Option<String>,
    /// `KEEP_BASE_URL`
    pub keep_base_url: Option<String>,
    /// `GRAYLOG_BASE_URL`
    pub graylog_base_url: Option<String>,
    /// `ENVIRONMENT_NAME`
    pub environment_name: Option<String>,
    /// `ZULIP_EMAIL`
    pub zulip_email: Option<String>,
    /// `ZULIP_API_KEY`
    pub zulip_api_key: Option<String>,
    /// `ZULIP_HOST`
    pub zulip_host: Option<String>,
    /// `ZULIP_DEFAULT_STREAM`
    pub zulip_default_stream: Option<String>,
    /// `ZULIP_NAMESPACE_STREAMS` (a JSON object of strings)
    pub zulip_namespace_streams: Option<String>,
    /// `ZULIP_ENABLED`
    pub zulip_enabled: Option<String>,
    /// `MESSAGE_TTL_DAYS`
    pub message_ttl_days: Option<String>,
    /// `ZULIP_REQUEST_TIMEOUT_SECS`
    pub zulip_request_timeout_secs: Option<String>,
}

// ---------------------------------------------------------------------------
// Namespace → stream map
// ---------------------------------------------------------------------------

/// `serde_json::Error`, carried out of the JSON wrapper.
#[verifier::external_type_specification]
#[verifier::external_body]
pub struct ExJsonError(serde_json::Error);

/// What `serde_json::from_str::<HashMap<String, String>>` returns for a
/// text: the map when the text is a JSON object whose values are all
/// strings, `None` otherwise.
pub uninterp spec fn json_string_object(text: Seq<char>) -> Option<Map<Seq<char>, Seq<char>>>;

/// The map that a list of pairs denotes (a later pair overrides an earlier
/// one with the same key).
pub open spec fn pairs_map(pairs: Seq<(String, String)>) -> Map<Seq<char>, Seq<char>>
    decreases pairs.len(),
{
    if pairs.len() == 0 {
        Map::empty()
    } else {
        pairs_map(pairs.drop_last()).insert(pairs.last().0@, pairs.last().1@)
    }
}

/// No two pairs share a key.
pub open spec fn keys_distinct(pairs: Seq<(String, String)>) -> bool {
    forall|i: int, j: int| 0 <= i < j < pairs.len() ==> pairs[i].0@ != pairs[j].0@
}

/// Calls `serde_json::from_str::<HashMap<String, String>>` and lists the
/// entries of the map.  The contract names the parsed map
/// ([`json_string_object`]); the order of the listed entries is the hash
/// map's and is not stated.
#[verifier::external_body]
fn json_string_map(text: &str) -> (r: Result<Vec<(String, String)>, serde_json::Error>)
    ensures
        match r {
            Ok(v) => json_string_object(text@) == Some(pairs_map(v@)) && keys_distinct(v@),
            Err(_) => json_string_object(text@) is None,
        },
{
    match serde_json::from_str::<std::collections::HashMap<String, String>>(text) {
        Ok(m) => Ok(m.into_iter().collect()),
        Err(e) => Err(e),
    }
}

/// What [`parse_namespace_streams`] gives for a raw value: the empty map for
/// an empty value or a value that is not a JSON object of strings.
pub open spec fn namespace_streams_spec(raw: Seq<char>) -> Map<Seq<char>, Seq<char>> {
    if raw.len() == 0 {
        Map::empty()
    } else {
        match json_string_object(raw) {
            Some(m) => m,
            None => Map::empty(),
        }
    }
}

/// Why the `ZULIP_NAMESPACE_STREAMS` value gave no map: namespace routing
/// then uses the default stream, and a warning is due.
#[derive(Debug)]
pub enum NamespaceStreamsIssue {
    /// The variable is unset or empty.
    Missing,
    /// The value is not a JSON object of strings; the text describes the
    /// JSON error.
    InvalidJson(String),
}

/// The issue a raw value has: `Missing` when it is empty, `InvalidJson` when
/// it is not a JSON object of strings.
pub open spec fn streams_issue_spec(raw: Seq<char>, issue: Option<NamespaceStreamsIssue>) -> bool {
    match issue {
        None => raw.len() > 0 && json_string_object(raw) is Some,
        Some(NamespaceStreamsIssue::Missing) => raw.len() == 0,
        Some(NamespaceStreamsIssue::InvalidJson(_)) => raw.len() > 0 && json_string_object(raw) is None,
    }
}

/// The `Display` text of a `serde_json::Error`.  Nothing is stated of the
/// text.
#[verifier::external_body]
fn json_error_text(e: &serde_json::Error) -> String {
    e.to_string()
}

/// Parses the `ZULIP_NAMESPACE_STREAMS` value, a JSON object mapping
/// namespaces to stream names.  An empty or invalid value gives no pairs
/// and an issue to warn about.
pub fn parse_namespace_streams(raw: &str) -> (r: (Vec<(String, String)>, Option<NamespaceStreamsIssue>))
    ensures
        pairs_map(r.0@) == namespace_streams_spec(raw@),
        keys_distinct(r.0@),
        streams_issue_spec(raw@, r.1),
{
    if raw.is_empty() {
        assert(pairs_map(Seq::<(String, String)>::empty()) =~= Map::empty());
        return (Vec::new(), Some(NamespaceStreamsIssue::Missing));
    }
    match json_string_map(raw) {
        Ok(v) => (v, None),
        Err(e) => {
            assert(pairs_map(Seq::<(String, String)>::empty()) =~= Map::empty());
            (Vec::new(), Some(NamespaceStreamsIssue::InvalidJson(json_error_text(&e))))
        },
    }
}

/// The stream of the first pair whose namespace is `ns`.
pub open spec fn stream_lookup(pairs: Seq<(String, String)>, ns: Seq<char>) -> Option<Seq<char>>
    decreases pairs.len(),
{
    if pairs.len() == 0 {
        None
    } else if pairs[0].0@ == ns {
        Some(pairs[0].1@)
    } else {
        stream_lookup(pairs.drop_first(), ns)
    }
}

// ---------------------------------------------------------------------------
// Reading the environment values
// ---------------------------------------------------------------------------

/// A variable's value trimmed of white space, or empty when unset.
pub open spec fn env_value_spec(raw: Option<String>) -> Seq<char> {
    match raw {
        Some(v) => trim_spec(v@),
        None => Seq::empty(),
    }
}

/// A number read from a trimmed variable, or `default` when it is unset or
/// does not parse.
pub open spec fn env_number_spec(raw: Option<String>, default: u64) -> u64 {
    match raw {
        Some(v) => match unsigned_parse(trim_spec(v@), u64::MAX as nat) {
            Some(n) => n as u64,
            None => default,
        },
        None => default,
    }
}

/// The listening port: `PORT` parsed as given (untrimmed), else `8080`.
pub open spec fn port_spec(raw: Option<String>) -> u16 {
    match raw {
        Some(v) => match unsigned_parse(v@, u16::MAX as nat) {
            Some(n) => n as u16,
            None => 8080,
        },
        None => 8080,
    }
}

/// Zulip is enabled unless `ZULIP_ENABLED`, trimmed and lower-cased, is
/// `false`.
pub open spec fn enabled_spec(raw: Option<String>) -> bool {
    match raw {
        Some(v) => lowercase_of(trim_spec(v@)) != "false"@,
        None => true,
    }
}

/// Reads a variable's value: trimmed of white space, empty when unset.
pub fn env_opt(raw: &Option<String>) -> (r: String)
    ensures
        r@ == env_value_spec(*raw),
{
    match raw {
        Some(v) => trim(v.as_str()),
        None => String::new(),
    }
}

/// Reads a number from a trimmed variable, with a default.
fn env_number(raw: &Option<String>, default: u64) -> (r: u64)
    ensures
        r == env_number_spec(*raw, default),
{
    match raw {
        Some(v) => {
            let t = trim(v.as_str());
            match parse_unsigned(t.as_str(), u64::MAX) {
                Some(n) => n,
                None => default,
            }
        },
        None => default,
    }
}

/// The namespace-streams value read as given, empty when unset.
pub open spec fn raw_streams_spec(raw: Option<String>) -> Seq<char> {
    match raw {
        Some(s) => s@,
        None => Seq::empty(),
    }
}

impl Config {
    /// Builds the configuration from the raw environment values, with the
    /// issue of the namespace-streams value, if any, to warn about.
    pub fn from_env_vars(vars: &EnvVars) -> (out: (Config, Option<NamespaceStreamsIssue>))
        ensures
            out.0.port == port_spec(vars.port),
            out.0.keep_base_url@ == env_value_spec(vars.keep_base_url),
            out.0.graylog_base_url@ == env_value_spec(vars.graylog_base_url),
            out.0.environment_name@ == env_value_spec(vars.environment_name),
            out.0.zulip_email@ == env_value_spec(vars.zulip_email),
            out.0.zulip_api_key@ == env_value_spec(vars.zulip_api_key),
            out.0.zulip_host@ == env_value_spec(vars.zulip_host),
            out.0.zulip_default_stream@ == env_value_spec(vars.zulip_default_stream),
            pairs_map(out.0.zulip_namespace_streams@) == namespace_streams_spec(
                raw_streams_spec(vars.zulip_namespace_streams),
            ),
            keys_distinct(out.0.zulip_namespace_streams@),
            out.0.zulip_enabled == enabled_spec(vars.zulip_enabled),
            out.0.message_ttl_days == env_number_spec(vars.message_ttl_days, 7),
            out.0.zulip_request_timeout_secs == env_number_spec(vars.zulip_request_timeout_secs, 10),
            streams_issue_spec(raw_streams_spec(vars.zulip_namespace_streams), out.1),
    {
        let port: u16 = match &vars.port {
            Some(v) => match parse_unsigned(v.as_str(), 65535) {
                Some(n) => n as u16,
                None => 8080,
            },
            None => 8080,
        };
        let (streams, issue) = match &vars.zulip_namespace_streams {
            Some(s) => parse_namespace_streams(s.as_str()),
            None => parse_namespace_streams(""),
        };
        proof {
            reveal_strlit("");
        }
        let zulip_enabled = match &vars.zulip_enabled {
            Some(v) => {
                let t = trim(v.as_str());
                let l = lowercase(t.as_str());
                !str_eq(l.as_str(), "false")
            },
            None => true,
        };
        let config = Config {
            port,
            keep_base_url: env_opt(&vars.keep_base_url),
            graylog_base_url: env_opt(&vars.graylog_base_url),
            environment_name: env_opt(&vars.environment_name),
            zulip_email: env_opt(&vars.zulip_email),
            zulip_api_key: env_opt(&vars.zulip_api_key),
            zulip_host: env_opt(&vars.zulip_host),
            zulip_default_stream: env_opt(&vars.zulip_default_stream),
            zulip_namespace_streams: streams,
            zulip_enabled,
            message_ttl_days: env_number(&vars.message_ttl_days, 7),
            zulip_request_timeout_secs: env_number(&vars.zulip_request_timeout_secs, 10),
        };
        (config, issue)
    }

    /// All Zulip credentials and routing config are present.
    pub open spec fn zulip_configured_spec(&self) -> bool {
        &&& self.zulip_email@.len() > 0
        &&& self.zulip_api_key@.len() > 0
        &&& self.zulip_host@.len() > 0
        &&& self.zulip_default_stream@.len() > 0
    }

    /// Returns `true` when all Zulip credentials and routing config are
    /// present, whether or not Zulip is enabled.
    pub fn zulip_configured(&self) -> (r: bool)
        ensures
            r == self.zulip_configured_spec(),
    {
        !self.zulip_email.as_str().is_empty() && !self.zulip_api_key.as_str().is_empty()
            && !self.zulip_host.as_str().is_empty() && !self.zulip_default_stream.as_str().is_empty()
    }

    /// The Keep deep-link of an alert fingerprint, when Keep is configured.
    pub open spec fn keep_alert_url_spec(&self, fingerprint: Seq<char>) -> Option<Seq<char>> {
        if self.keep_base_url@.len() == 0 {
            None
        } else {
            Some(trim_end_slashes_spec(self.keep_base_url@) + "/alerts/feed?alertPayloadFingerprint="@
                + fingerprint)
        }
    }

    /// The Keep page of an incident's alerts, when Keep is configured.
    pub open spec fn keep_incident_url_spec(&self, incident_id: Seq<char>) -> Option<Seq<char>> {
        if self.keep_base_url@.len() == 0 {
            None
        } else {
            Some(trim_end_slashes_spec(self.keep_base_url@) + "/incidents/"@ + incident_id
                + "/alerts"@)
        }
    }

    /// Builds the Keep deep-link URL for an alert fingerprint:
    /// `{keep_base_url}/alerts/feed?alertPayloadFingerprint={fingerprint}`,
    /// with trailing slashes of the base removed.  `None` when
    /// `KEEP_BASE_URL` is not configured.
    pub fn keep_alert_url(&self, fingerprint: &str) -> (r: Option<String>)
        ensures
            match r {
                Some(u) => self.keep_alert_url_spec(fingerprint@) == Some(u@),
                None => self.keep_alert_url_spec(fingerprint@) is None,
            },
    {
        if self.keep_base_url.as_str().is_empty() {
            return None;
        }
        let mut out = trim_end_slashes(self.keep_base_url.as_str());
        out.append("/alerts/feed?alertPayloadFingerprint=");
        out.append(fingerprint);
        Some(out)
    }

    /// Builds the Keep URL of an incident's alerts:
    /// `{keep_base_url}/incidents/{incident_id}/alerts`.  `None` when
    /// `KEEP_BASE_URL` is not configured.
    pub fn keep_incident_url(&self, incident_id: &str) -> (r: Option<String>)
        ensures
            match r {
                Some(u) => self.keep_incident_url_spec(incident_id@) == Some(u@),
                None => self.keep_incident_url_spec(incident_id@) is None,
            },
    {
        if self.keep_base_url.as_str().is_empty() {
            return None;
        }
        let mut out = trim_end_slashes(self.keep_base_url.as_str());
        out.append("/incidents/");
        out.append(incident_id);
        out.append("/alerts");
        Some(out)
    }

    /// The stream for a namespace: its mapped stream, else the default.
    pub open spec fn stream_for_namespace_spec(&self, namespace: Option<Seq<char>>) -> Seq<char> {
        match namespace {
            Some(ns) => match stream_lookup(self.zulip_namespace_streams@, ns) {
                Some(s) => s,
                None => self.zulip_default_stream@,
            },
            None => self.zulip_default_stream@,
        }
    }

    /// Resolves the Zulip stream for a Kubernetes namespace: the mapped
    /// stream when the namespace has one, else `zulip_default_stream`.
    pub fn stream_for_namespace(&self, namespace: Option<&str>) -> (r: &str)
        ensures
            r@ == self.stream_for_namespace_spec(match namespace {
                Some(ns) => Some(ns@),
                None => None,
            }),
    {
        if let Some(ns) = namespace {
            let pairs = &self.zulip_namespace_streams;
            let mut i: usize = 0;
            assert(pairs@.skip(0) =~= pairs@);
            while i < pairs.len()
                invariant
                    i <= pairs.len(),
                    namespace == Some(ns),
                    pairs@ == self.zulip_namespace_streams@,
                    stream_lookup(pairs@, ns@) == stream_lookup(pairs@.skip(i as int), ns@),
                decreases pairs.len() - i,
            {
                assert(pairs@.skip(i as int).drop_first() =~= pairs@.skip(i + 1));
                assert(pairs@.skip(i as int)[0] == pairs@[i as int]);
                if str_eq(pairs[i].0.as_str(), ns) {
                    return pairs[i].1.as_str();
                }
                i += 1;
            }
        }
        self.zulip_default_stream.as_str()
    }

    /// The Zulip topic of this environment: `alerts-{environment_name}`.
    pub open spec fn zulip_topic_spec(&self) -> Seq<char> {
        "alerts-"@ + self.environment_name@
    }

    /// Builds the Zulip topic for this environment: `alerts-{environment_name}`.
    pub fn zulip_topic(&self) -> (r: String)
        ensures
            r@ == self.zulip_topic_spec(),
    {
        let mut out = to_owned_string("alerts-");
        out.append(self.environment_name.as_str());
        out
    }
}

} // verus!

verus! {

/// With distinct keys, the lookup finds the pair holding the key.
proof fn lemma_stream_lookup_at(pairs: Seq<(String, String)>, ns: Seq<char>, i: int)
    requires
        keys_distinct(pairs),
        0 <= i < pairs.len(),
        pairs[i].0@ == ns,
    ensures
        stream_lookup(pairs, ns) == Some(pairs[i].1@),
    decreases pairs.len(),
{
    if i > 0 {
        let rest = pairs.drop_first();
        assert(pairs[0].0@ != pairs[i].0@);
        assert(rest[i - 1] == pairs[i]);
        lemma_stream_lookup_at(rest, ns, i - 1);
    }
}

/// The lookup finds nothing for a key no pair holds.
proof fn lemma_stream_lookup_absent(pairs: Seq<(String, String)>, ns: Seq<char>)
    requires
        forall|i: int| 0 <= i < pairs.len() ==> pairs[i].0@ != ns,
    ensures
        stream_lookup(pairs, ns) is None,
    decreases pairs.len(),
{
    if pairs.len() > 0 {
        let rest = pairs.drop_first();
        assert forall|i: int| 0 <= i < rest.len() implies rest[i].0@ != ns by {
            assert(rest[i] == pairs[i + 1]);
        }
        lemma_stream_lookup_absent(rest, ns);
    }
}

/// With distinct keys, the map holds each pair.
proof fn lemma_pairs_map_at(pairs: Seq<(String, String)>, ns: Seq<char>, i: int)
    requires
        keys_distinct(pairs),
        0 <= i < pairs.len(),
        pairs[i].0@ == ns,
    ensures
        pairs_map(pairs).contains_key(ns),
        pairs_map(pairs)[ns] == pairs[i].1@,
    decreases pairs.len(),
{
    if i < pairs.len() - 1 {
        let rest = pairs.drop_last();
        assert(rest[i] == pairs[i]);
        assert(pairs.last().0@ != ns);
        lemma_pairs_map_at(rest, ns, i);
    }
}

/// The map has no key that no pair holds.
proof fn lemma_pairs_map_absent(pairs: Seq<(String, String)>, ns: Seq<char>)
    requires
        forall|i: int| 0 <= i < pairs.len() ==> pairs[i].0@ != ns,
    ensures
        !pairs_map(pairs).contains_key(ns),
    decreases pairs.len(),
{
    if pairs.len() > 0 {
        let rest = pairs.drop_last();
        assert forall|i: int| 0 <= i < rest.len() implies rest[i].0@ != ns by {
            assert(rest[i] == pairs[i]);
        }
        lemma_pairs_map_absent(rest, ns);
    }
}

/// Namespace routing follows the configured map: a namespace that the map
/// holds is routed to its stream, any other namespace (or none) to the
/// default stream.
pub proof fn law_namespace_routing(config: Config, ns: Option<Seq<char>>)
    requires
        keys_distinct(config.zulip_namespace_streams@),
    ensures
        config.stream_for_namespace_spec(ns) == match ns {
            Some(n) => if pairs_map(config.zulip_namespace_streams@).contains_key(n) {
                pairs_map(config.zulip_namespace_streams@)[n]
            } else {
                config.zulip_default_stream@
            },
            None => config.zulip_default_stream@,
        },
{
    if let Some(n) = ns {
        let pairs = config.zulip_namespace_streams@;
        if exists|i: int| 0 <= i < pairs.len() && pairs[i].0@ == n {
            let i = choose|i: int| 0 <= i < pairs.len() && pairs[i].0@ == n;
            lemma_stream_lookup_at(pairs, n, i);
            lemma_pairs_map_at(pairs, n, i);
        } else {
            lemma_stream_lookup_absent(pairs, n);
            lemma_pairs_map_absent(pairs, n);
        }
    }
}

/// A trailing slash on `KEEP_BASE_URL` does not change the Keep links.
pub proof fn law_keep_links_ignore_trailing_slash(with_slash: Config, without: Config, key: Seq<char>)
    requires
        without.keep_base_url@.len() > 0,
        with_slash.keep_base_url@ == without.keep_base_url@ + "/"@,
    ensures
        with_slash.keep_alert_url_spec(key) == without.keep_alert_url_spec(key),
        with_slash.keep_incident_url_spec(key) == without.keep_incident_url_spec(key),
{
    reveal_strlit("/");
    let s = with_slash.keep_base_url@;
    assert(s.drop_last() =~= without.keep_base_url@);
}

} // verus!
