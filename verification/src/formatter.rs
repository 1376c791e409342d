//! Rendering of an alert as a Zulip-flavoured Markdown message.
//!
//! Layout:
//! ```text
//! {severity_emoji} **[{name}]({keep_url})** · {status_emoji} {status}
//!
//! *{annotations.summary}*               ← if present
//!
//! {description}                          ← if present (and different from summary)
//!
//! **Root cause analysis:** {rca}         ← if present
//! **Details:**
//! - **Application:** `…`                 ← only shown when present
//! - **Occurrences:** N
//! - **Assignee:** …                      ← `—` when unassigned
//! - **Reason:** `…`                      ← only shown when present
//! - **Pod:** `…`
//! - **Container:** `…`
//! - **Correlated alerts:** [parent](…)   ← only with a Keep URL
//! - **Start time:** `…`                  ← UTC ISO 8601
//! - **End time:** `…`                    ← only shown when present, UTC ISO 8601
//!
//! 📊 [Prometheus](…) · 📖 [Runbook](…) · 🔍 [Graylog](…)   ← each when available
//! ```

use vstd::prelude::*;
use crate::config::Config;
use crate::datetime::{datetime_iso_spec, now_iso, parse_datetime_to_iso, utc_rendering, ISO_MILLIS_FORMAT};
use crate::models::alert::{Alert, payload_start_spec};
use crate::models::opt_view;
use crate::text::{
    chars_of, decimal, decimal_spec, lowercase, lowercase_of, push_char, replace_char,
    replace_char_spec, str_eq, to_owned_string,
};

verus! {

// ---------------------------------------------------------------------------
// Emoji
// ---------------------------------------------------------------------------

/// The emoji of a severity (compared case-insensitively).
pub open spec fn severity_emoji_spec(severity: Seq<char>) -> Seq<char> {
    let l = lowercase_of(severity);
    if l == "critical"@ {
        "🔴"@
    } else if l == "warning"@ {
        "🟡"@
    } else if l == "info"@ {
        "🔵"@
    } else if l == "page"@ {
        "🚨"@
    } else {
        "⚪"@
    }
}

/// The emoji of a status (compared case-insensitively).
pub open spec fn status_emoji_spec(status: Seq<char>) -> Seq<char> {
    let l = lowercase_of(status);
    if l == "firing"@ {
        "🔥"@
    } else if l == "resolved"@ {
        "✅"@
    } else if l == "acknowledged"@ {
        "👀"@
    } else if l == "suppressed"@ {
        "🔕"@
    } else {
        "❓"@
    }
}

/// The emoji of a severity: 🔴 critical, 🟡 warning, 🔵 info, 🚨 page,
/// ⚪ anything else.
pub fn severity_emoji(severity: &str) -> (r: &'static str)
    ensures
        r@ == severity_emoji_spec(severity@),
{
    let l = lowercase(severity);
    if str_eq(l.as_str(), "critical") {
        "🔴"
    } else if str_eq(l.as_str(), "warning") {
        "🟡"
    } else if str_eq(l.as_str(), "info") {
        "🔵"
    } else if str_eq(l.as_str(), "page") {
        "🚨"
    } else {
        "⚪"
    }
}

/// The emoji of a status: 🔥 firing, ✅ resolved, 👀 acknowledged,
/// 🔕 suppressed, ❓ anything else.
pub fn status_emoji(status: &str) -> (r: &'static str)
    ensures
        r@ == status_emoji_spec(status@),
{
    let l = lowercase(status);
    if str_eq(l.as_str(), "firing") {
        "🔥"
    } else if str_eq(l.as_str(), "resolved") {
        "✅"
    } else if str_eq(l.as_str(), "acknowledged") {
        "👀"
    } else if str_eq(l.as_str(), "suppressed") {
        "🔕"
    } else {
        "❓"
    }
}

// ---------------------------------------------------------------------------
// URL encoding
// ---------------------------------------------------------------------------

/// The query-string encoding of one character.
pub open spec fn encode_char_spec(c: char) -> Seq<char> {
    if c == ' ' {
        "+"@
    } else if c == '"' {
        "%22"@
    } else if c == '%' {
        "%25"@
    } else if c == '+' {
        "%2B"@
    } else if c == '&' {
        "%26"@
    } else if c == '=' {
        "%3D"@
    } else if c == '#' {
        "%23"@
    } else {
        seq![c]
    }
}

/// The query-string encoding of a value, character by character.
pub open spec fn url_encode_value_spec(s: Seq<char>) -> Seq<char>
    decreases s.len(),
{
    if s.len() == 0 {
        Seq::empty()
    } else {
        url_encode_value_spec(s.drop_last()) + encode_char_spec(s.last())
    }
}

/// Percent-encodes the characters that are special inside a query-string
/// value, with `+` for spaces.
pub fn url_encode_value(s: &str) -> (r: String)
    ensures
        r@ == url_encode_value_spec(s@),
{
    let v = chars_of(s);
    let mut out = String::new();
    let mut i: usize = 0;
    while i < v.len()
        invariant
            v@ == s@,
            i <= v.len(),
            out@ == url_encode_value_spec(v@.take(i as int)),
        decreases v.len() - i,
    {
        assert(v@.take(i + 1).drop_last() =~= v@.take(i as int));
        let c = v[i];
        if c == ' ' {
            out.append("+");
        } else if c == '"' {
            out.append("%22");
        } else if c == '%' {
            out.append("%25");
        } else if c == '+' {
            out.append("%2B");
        } else if c == '&' {
            out.append("%26");
        } else if c == '=' {
            out.append("%3D");
        } else if c == '#' {
            out.append("%23");
        } else {
            push_char(&mut out, c);
            assert(out@ =~= url_encode_value_spec(v@.take(i as int)) + seq![c]);
        }
        i += 1;
    }
    assert(v@.take(v.len() as int) =~= v@);
    out
}

/// Percent-encodes `:` in a timestamp.
pub open spec fn url_encode_timestamp_spec(s: Seq<char>) -> Seq<char> {
    replace_char_spec(s, ':', "%3A"@)
}

/// Percent-encodes `:` in an ISO-8601 timestamp for use as a query-string
/// value.
pub fn url_encode_timestamp(s: &str) -> (r: String)
    ensures
        r@ == url_encode_timestamp_spec(s@),
{
    replace_char(s, ':', "%3A")
}

// ---------------------------------------------------------------------------
// Graylog link
// ---------------------------------------------------------------------------

/// The start time shown for an alert: the payload's start time, else `now`.
pub open spec fn start_text_spec(alert: Alert, now: Seq<char>) -> Seq<char> {
    match payload_start_spec(alert) {
        Some(s) => s,
        None => now,
    }
}

/// The Graylog search link: present when the Graylog base URL is
/// configured, the alert has a namespace and an application name, and its
/// start time parses; the range runs from the start time to `now`.
pub open spec fn graylog_url_spec(alert: Alert, config: Config, now: Seq<char>) -> Option<Seq<char>> {
    if config.graylog_base_url@.len() == 0 {
        None
    } else {
        match (alert.namespace, alert.labels.app_name, datetime_iso_spec(start_text_spec(alert, now))) {
            (Some(ns), Some(app), Some(start)) => Some(config.graylog_base_url@
                + "namespace%3A+%22"@ + url_encode_value_spec(ns@)
                + "%22+AND+label_name%3A+%22"@ + url_encode_value_spec(app@)
                + "%22&rangetype=absolute&from="@ + url_encode_timestamp_spec(start)
                + "&to="@ + url_encode_timestamp_spec(now)),
            _ => None,
        }
    }
}

/// Builds the Graylog deep-link of an alert, with `now` as the end of the
/// search range.
pub fn build_graylog_url(alert: &Alert, config: &Config, now: &str) -> (r: Option<String>)
    ensures
        opt_view(r) == graylog_url_spec(*alert, *config, now@),
{
    if config.graylog_base_url.as_str().is_empty() {
        return None;
    }
    let namespace = match &alert.namespace {
        Some(ns) => ns,
        None => return None,
    };
    let app_name = match &alert.labels.app_name {
        Some(a) => a,
        None => return None,
    };
    let start_text = alert.effective_started_at_or(now);
    let start_iso = match parse_datetime_to_iso(start_text.as_str()) {
        Some(s) => s,
        None => return None,
    };
    let mut out = to_owned_string(config.graylog_base_url.as_str());
    out.append("namespace%3A+%22");
    out.append(url_encode_value(namespace.as_str()).as_str());
    out.append("%22+AND+label_name%3A+%22");
    out.append(url_encode_value(app_name.as_str()).as_str());
    out.append("%22&rangetype=absolute&from=");
    out.append(url_encode_timestamp(start_iso.as_str()).as_str());
    out.append("&to=");
    out.append(url_encode_timestamp(now).as_str());
    Some(out)
}

// ---------------------------------------------------------------------------
// Message blocks
// ---------------------------------------------------------------------------

/// `prefix value suffix` when the value is present, nothing otherwise.
pub open spec fn opt_line_spec(prefix: Seq<char>, value: Option<String>, suffix: Seq<char>) -> Seq<char> {
    match value {
        Some(v) => prefix + v@ + suffix,
        None => Seq::empty(),
    }
}

/// Appends `prefix value suffix` when the value is present.
fn push_opt_line(out: &mut String, prefix: &str, value: &Option<String>, suffix: &str)
    ensures
        final(out)@ == old(out)@ + opt_line_spec(prefix@, *value, suffix@),
{
    match value {
        Some(v) => {
            out.append(prefix);
            out.append(v.as_str());
            out.append(suffix);
            assert(out@ =~= old(out)@ + opt_line_spec(prefix@, *value, suffix@));
        },
        None => {
            assert(out@ =~= old(out)@ + opt_line_spec(prefix@, *value, suffix@));
        },
    }
}

/// The header line: severity emoji, the name (linked to Keep when
/// configured, plain bold otherwise), status emoji and status.
pub open spec fn header_spec(alert: Alert, config: Config) -> Seq<char> {
    let name = match config.keep_alert_url_spec(alert.fingerprint@) {
        Some(u) => "**["@ + alert.name@ + "]("@ + u + ")**"@,
        None => "**"@ + alert.name@ + "**"@,
    };
    severity_emoji_spec(alert.severity@) + " "@ + name + " · "@ + status_emoji_spec(alert.status@)
        + " "@ + alert.status@ + "\n"@
}

/// The summary paragraph (in italics), the description paragraph (only
/// when it differs from the summary) and the root-cause paragraph.
pub open spec fn paragraphs_spec(alert: Alert) -> Seq<char> {
    let summary = opt_line_spec("\n*"@, alert.annotations.summary, "*\n"@);
    let description = match alert.description {
        Some(d) => if opt_view(alert.annotations.summary) == Some(d@) {
            Seq::empty()
        } else {
            "\n"@ + d@ + "\n"@
        },
        None => Seq::empty(),
    };
    summary + description + opt_line_spec("\n**Root cause analysis:** "@, alert.rca_summary, "\n"@)
}

/// The assignee bullet: the assignee when set and non-empty, `—` otherwise.
pub open spec fn assignee_spec(alert: Alert) -> Seq<char> {
    match alert.assignee {
        Some(a) => if a@.len() > 0 {
            "- **Assignee:** "@ + a@ + "\n"@
        } else {
            "- **Assignee:** —\n"@
        },
        None => "- **Assignee:** —\n"@,
    }
}

/// The correlated-alert bullet: only when the parent's name and fingerprint
/// are present and a Keep URL can be built.
pub open spec fn correlated_spec(alert: Alert, config: Config) -> Seq<char> {
    match (alert.correlated_parent_alert, alert.correlated_parent_fingerprint) {
        (Some(parent), Some(fp)) => match config.keep_alert_url_spec(fp@) {
            Some(url) => "- **Correlated alerts:** ["@ + parent@ + "]("@ + url + ")\n"@,
            None => Seq::empty(),
        },
        _ => Seq::empty(),
    }
}

/// A timestamp bullet, the time in backticks, when the text parses as a
/// timestamp.
pub open spec fn time_line_spec(label: Seq<char>, text: Option<Seq<char>>) -> Seq<char> {
    match text {
        Some(t) => match datetime_iso_spec(t) {
            Some(ts) => label + "`"@ + ts + "`\n"@,
            None => Seq::empty(),
        },
        None => Seq::empty(),
    }
}

/// The first bullets: application, occurrences, assignee.
pub open spec fn details_head_spec(alert: Alert) -> Seq<char> {
    "**Details:**\n"@
        + opt_line_spec("- **Application:** `"@, alert.labels.app_name, "`\n"@)
        + "- **Occurrences:** "@ + decimal_spec(alert.firing_counter as nat) + "\n"@
        + assignee_spec(alert)
}

/// The remaining bullets: reason, pod, container, correlated alert, start
/// and end times.
pub open spec fn details_tail_spec(alert: Alert, config: Config, now: Seq<char>) -> Seq<char> {
    opt_line_spec("- **Reason:** `"@, alert.labels.reason, "`\n"@)
        + opt_line_spec("- **Pod:** `"@, alert.labels.pod, "`\n"@)
        + opt_line_spec("- **Container:** `"@, alert.labels.container, "`\n"@)
        + correlated_spec(alert, config)
        + time_line_spec("- **Start time:** "@, Some(start_text_spec(alert, now)))
        + time_line_spec("- **End time:** "@, opt_view(alert.ends_at))
}

/// The details list.
pub open spec fn details_spec(alert: Alert, config: Config, now: Seq<char>) -> Seq<char> {
    details_head_spec(alert) + details_tail_spec(alert, config, now)
}

/// `items` joined with `sep`.
pub open spec fn join_spec(items: Seq<Seq<char>>, sep: Seq<char>) -> Seq<char>
    decreases items.len(),
{
    if items.len() == 0 {
        Seq::empty()
    } else if items.len() == 1 {
        items[0]
    } else {
        join_spec(items.drop_last(), sep) + sep + items.last()
    }
}

/// `item` as a one-element list when present.
pub open spec fn opt_item(item: Option<Seq<char>>) -> Seq<Seq<char>> {
    match item {
        Some(i) => seq![i],
        None => Seq::empty(),
    }
}

/// The footer links that are available, in order: Prometheus, runbook,
/// Graylog.
pub open spec fn footer_items_spec(alert: Alert, config: Config, now: Seq<char>) -> Seq<Seq<char>> {
    opt_item(match alert.generator_url {
        Some(g) => Some("📊 [Prometheus]("@ + g@ + ")"@),
        None => None,
    }) + opt_item(match alert.annotations.runbook_url {
        Some(r) => Some("📖 [Runbook]("@ + r@ + ")"@),
        None => None,
    }) + opt_item(match graylog_url_spec(alert, config, now) {
        Some(u) => Some("🔍 [Graylog]("@ + u + ")"@),
        None => None,
    })
}

/// The whole message for an alert, with `now` as the current time.
pub open spec fn markdown_spec(alert: Alert, config: Config, now: Seq<char>) -> Seq<char> {
    header_spec(alert, config) + paragraphs_spec(alert) + details_spec(alert, config, now) + "\n"@
        + join_spec(footer_items_spec(alert, config, now), " · "@) + "\n"@
}

/// The character sequences of a list of strings.
pub open spec fn views_of(v: Seq<String>) -> Seq<Seq<char>> {
    v.map_values(|s: String| s@)
}

/// Joins strings with a separator.
fn join(items: &Vec<String>, sep: &str) -> (r: String)
    ensures
        r@ == join_spec(views_of(items@), sep@),
{
    let mut out = String::new();
    let mut i: usize = 0;
    while i < items.len()
        invariant
            i <= items.len(),
            out@ == join_spec(views_of(items@).take(i as int), sep@),
        decreases items.len() - i,
    {
        let ghost before = views_of(items@).take(i as int);
        assert(views_of(items@).take(i + 1).drop_last() =~= before);
        if i > 0 {
            out.append(sep);
        }
        out.append(items[i].as_str());
        proof {
            let now = views_of(items@).take(i + 1);
            if i == 0 {
                assert(before =~= Seq::<Seq<char>>::empty());
                assert(out@ =~= now[0]);
            } else {
                assert(out@ =~= join_spec(before, sep@) + sep@ + now.last());
            }
        }
        i += 1;
    }
    assert(views_of(items@).take(items.len() as int) =~= views_of(items@));
    out
}

/// Appends the header line.
fn push_header(out: &mut String, alert: &Alert, config: &Config)
    ensures
        final(out)@ == old(out)@ + header_spec(*alert, *config),
{
    out.append(severity_emoji(alert.severity.as_str()));
    out.append(" ");
    match config.keep_alert_url(alert.fingerprint.as_str()) {
        Some(keep_url) => {
            out.append("**[");
            out.append(alert.name.as_str());
            out.append("](");
            out.append(keep_url.as_str());
            out.append(")**");
        },
        None => {
            out.append("**");
            out.append(alert.name.as_str());
            out.append("**");
        },
    }
    out.append(" · ");
    out.append(status_emoji(alert.status.as_str()));
    out.append(" ");
    out.append(alert.status.as_str());
    out.append("\n");
    assert(out@ =~= old(out)@ + header_spec(*alert, *config));
}

/// Appends the summary, description and root-cause paragraphs.
fn push_paragraphs(out: &mut String, alert: &Alert)
    ensures
        final(out)@ == old(out)@ + paragraphs_spec(*alert),
{
    push_opt_line(out, "\n*", &alert.annotations.summary, "*\n");
    if let Some(description) = &alert.description {
        let same_as_summary = match &alert.annotations.summary {
            Some(s) => str_eq(s.as_str(), description.as_str()),
            None => false,
        };
        if !same_as_summary {
            out.append("\n");
            out.append(description.as_str());
            out.append("\n");
        }
    }
    push_opt_line(out, "\n**Root cause analysis:** ", &alert.rca_summary, "\n");
    assert(out@ =~= old(out)@ + paragraphs_spec(*alert));
}

/// Appends a timestamp bullet when the text parses.
fn push_time_line(out: &mut String, label: &str, text: &Option<String>)
    ensures
        final(out)@ == old(out)@ + time_line_spec(label@, opt_view(*text)),
{
    if let Some(t) = text {
        if let Some(ts) = parse_datetime_to_iso(t.as_str()) {
            out.append(label);
            out.append("`");
            out.append(ts.as_str());
            out.append("`\n");
            assert(out@ =~= old(out)@ + time_line_spec(label@, opt_view(*text)));
            return;
        }
    }
    assert(out@ =~= old(out)@ + time_line_spec(label@, opt_view(*text)));
}

/// Appends the first bullets of the details list.
fn push_details_head(out: &mut String, alert: &Alert)
    ensures
        final(out)@ == old(out)@ + details_head_spec(*alert),
{
    out.append("**Details:**\n");
    push_opt_line(out, "- **Application:** `", &alert.labels.app_name, "`\n");
    out.append("- **Occurrences:** ");
    out.append(decimal(alert.firing_counter).as_str());
    out.append("\n");
    let ghost after_occurrences = out@;
    match &alert.assignee {
        Some(a) => if !a.as_str().is_empty() {
            out.append("- **Assignee:** ");
            out.append(a.as_str());
            out.append("\n");
        } else {
            out.append("- **Assignee:** —\n");
        },
        None => {
            out.append("- **Assignee:** —\n");
        },
    }
    assert(out@ =~= after_occurrences + assignee_spec(*alert));
    assert(out@ =~= old(out)@ + details_head_spec(*alert));
}

/// Appends the correlated-alert bullet when it is shown.
fn push_correlated(out: &mut String, alert: &Alert, config: &Config)
    ensures
        final(out)@ == old(out)@ + correlated_spec(*alert, *config),
{
    if let (Some(parent_name), Some(fp)) = (&alert.correlated_parent_alert, &alert.correlated_parent_fingerprint) {
        if let Some(url) = config.keep_alert_url(fp.as_str()) {
            out.append("- **Correlated alerts:** [");
            out.append(parent_name.as_str());
            out.append("](");
            out.append(url.as_str());
            out.append(")\n");
        }
    }
    assert(out@ =~= old(out)@ + correlated_spec(*alert, *config));
}

/// Appends the remaining bullets of the details list.
fn push_details_tail(out: &mut String, alert: &Alert, config: &Config, now: &str)
    ensures
        final(out)@ == old(out)@ + details_tail_spec(*alert, *config, now@),
{
    push_opt_line(out, "- **Reason:** `", &alert.labels.reason, "`\n");
    push_opt_line(out, "- **Pod:** `", &alert.labels.pod, "`\n");
    push_opt_line(out, "- **Container:** `", &alert.labels.container, "`\n");
    push_correlated(out, alert, config);
    let start = Some(alert.effective_started_at_or(now));
    push_time_line(out, "- **Start time:** ", &start);
    push_time_line(out, "- **End time:** ", &alert.ends_at);
    assert(out@ =~= old(out)@ + details_tail_spec(*alert, *config, now@));
}

/// The footer links of an alert.
fn footer_items(alert: &Alert, config: &Config, now: &str) -> (r: Vec<String>)
    ensures
        views_of(r@) == footer_items_spec(*alert, *config, now@),
{
    let mut footer: Vec<String> = Vec::new();
    if let Some(generator_url) = &alert.generator_url {
        let mut item = to_owned_string("📊 [Prometheus](");
        item.append(generator_url.as_str());
        item.append(")");
        footer.push(item);
    }
    if let Some(runbook_url) = &alert.annotations.runbook_url {
        let mut item = to_owned_string("📖 [Runbook](");
        item.append(runbook_url.as_str());
        item.append(")");
        footer.push(item);
    }
    if let Some(graylog_url) = build_graylog_url(alert, config, now) {
        let mut item = to_owned_string("🔍 [Graylog](");
        item.append(graylog_url.as_str());
        item.append(")");
        footer.push(item);
    }
    assert(views_of(footer@) =~= footer_items_spec(*alert, *config, now@));
    footer
}

/// Renders an alert as a Zulip Markdown message, with `now` (UTC ISO-8601)
/// as the current time.
pub fn render_markdown(alert: &Alert, config: &Config, now: &str) -> (r: String)
    ensures
        r@ == markdown_spec(*alert, *config, now@),
{
    let mut out = String::new();
    push_header(&mut out, alert, config);
    push_paragraphs(&mut out, alert);
    push_details_head(&mut out, alert);
    push_details_tail(&mut out, alert, config, now);
    out.append("\n");
    let footer = footer_items(alert, config, now);
    out.append(join(&footer, " · ").as_str());
    out.append("\n");
    assert(out@ =~= markdown_spec(*alert, *config, now@));
    out
}

/// Renders an alert as a Zulip Markdown message at the current time.
pub fn to_markdown(alert: &Alert, config: &Config) -> (r: String)
    ensures
        exists|now: Seq<char>, secs: i64, nanos: u32|
            utc_rendering(secs, nanos, ISO_MILLIS_FORMAT@) == Some(now) && r@ == markdown_spec(
                *alert,
                *config,
                now,
            ),
{
    let now = now_iso();
    render_markdown(alert, config, now.as_str())
}

} // verus!

verus! {

/// A character that the query-string encoding never leaves bare.
pub open spec fn is_query_special(c: char) -> bool {
    c == ' ' || c == '"' || c == '&' || c == '=' || c == '#'
}

/// The encoding of a value holds no bare space, quote, `&`, `=` or `#`, so
/// a namespace or application name cannot end the query value or start
/// another parameter.
pub proof fn law_encoded_value_has_no_separators(s: Seq<char>)
    ensures
        forall|i: int| 0 <= i < url_encode_value_spec(s).len() ==> !is_query_special(
            #[trigger] url_encode_value_spec(s)[i],
        ),
    decreases s.len(),
{
    reveal_strlit("+");
    reveal_strlit("%22");
    reveal_strlit("%25");
    reveal_strlit("%2B");
    reveal_strlit("%26");
    reveal_strlit("%3D");
    reveal_strlit("%23");
    if s.len() > 0 {
        law_encoded_value_has_no_separators(s.drop_last());
        let pre = url_encode_value_spec(s.drop_last());
        let tail = encode_char_spec(s.last());
        assert forall|i: int| 0 <= i < tail.len() implies !is_query_special(#[trigger] tail[i]) by {
        }
        assert forall|i: int| 0 <= i < url_encode_value_spec(s).len() implies !is_query_special(
            #[trigger] url_encode_value_spec(s)[i],
        ) by {
            if i < pre.len() {
                assert(url_encode_value_spec(s)[i] == pre[i]);
            } else {
                assert(url_encode_value_spec(s)[i] == tail[i - pre.len()]);
            }
        }
    }
}

/// The header names the alert with a Keep link exactly when Keep is
/// configured, and the correlated-alert bullet appears only when Keep is
/// configured.
pub proof fn law_keep_links_need_keep(alert: Alert, config: Config)
    requires
        config.keep_base_url@.len() == 0,
    ensures
        header_spec(alert, config) == severity_emoji_spec(alert.severity@) + " "@ + ("**"@
            + alert.name@ + "**"@) + " · "@ + status_emoji_spec(alert.status@) + " "@
            + alert.status@ + "\n"@,
        correlated_spec(alert, config) == Seq::<char>::empty(),
{
}

} // verus!

verus! {

/// The value of a hexadecimal digit.
pub open spec fn hex_value(c: char) -> Option<nat> {
    if '0' <= c && c <= '9' {
        Some(((c as u32) - 48) as nat)
    } else if 'A' <= c && c <= 'F' {
        Some(((c as u32) - 55) as nat)
    } else if 'a' <= c && c <= 'f' {
        Some(((c as u32) - 87) as nat)
    } else {
        None
    }
}

/// Form decoding of a query-string value: `+` is a space and `%XX` the
/// character with hexadecimal code `XX`; anything else stands for itself.
pub open spec fn form_decode(s: Seq<char>) -> Seq<char>
    decreases s.len(),
{
    if s.len() == 0 {
        Seq::empty()
    } else if s[0] == '+' {
        seq![' '] + form_decode(s.drop_first())
    } else if s[0] == '%' && s.len() >= 3 && hex_value(s[1]) is Some && hex_value(s[2]) is Some {
        seq![(16 * hex_value(s[1])->0 + hex_value(s[2])->0) as char] + form_decode(s.skip(3))
    } else {
        seq![s[0]] + form_decode(s.drop_first())
    }
}

/// One of the escapes the encoding writes.
pub open spec fn is_encoding_escape(t: Seq<char>) -> bool {
    t == "%22"@ || t == "%25"@ || t == "%2B"@ || t == "%26"@ || t == "%3D"@ || t == "%23"@
}

/// The encoding of a concatenation is the concatenation of the encodings.
proof fn lemma_encode_concat(a: Seq<char>, b: Seq<char>)
    ensures
        url_encode_value_spec(a + b) == url_encode_value_spec(a) + url_encode_value_spec(b),
    decreases b.len(),
{
    if b.len() == 0 {
        assert(a + b =~= a);
        assert(url_encode_value_spec(a) + url_encode_value_spec(b) =~= url_encode_value_spec(a));
    } else {
        lemma_encode_concat(a, b.drop_last());
        assert((a + b).drop_last() =~= a + b.drop_last());
        assert((a + b).last() == b.last());
        assert(url_encode_value_spec(a + b) =~= url_encode_value_spec(a) + url_encode_value_spec(b));
    }
}

/// Decoding the encoding of one character, followed by anything, gives the
/// character back first.
proof fn lemma_decode_encoded_char(c: char, rest: Seq<char>)
    ensures
        form_decode(encode_char_spec(c) + rest) == seq![c] + form_decode(rest),
{
    reveal_strlit("+");
    reveal_strlit("%22");
    reveal_strlit("%25");
    reveal_strlit("%2B");
    reveal_strlit("%26");
    reveal_strlit("%3D");
    reveal_strlit("%23");
    let s = encode_char_spec(c) + rest;
    if c == ' ' {
        assert(s[0] == '+');
        assert(s.drop_first() =~= rest);
    } else if c == '"' || c == '%' || c == '+' || c == '&' || c == '=' || c == '#' {
        assert(encode_char_spec(c).len() == 3);
        assert(s[0] == encode_char_spec(c)[0]);
        assert(s[1] == encode_char_spec(c)[1]);
        assert(s[2] == encode_char_spec(c)[2]);
        assert(s.skip(3) =~= rest);
    } else {
        assert(encode_char_spec(c) == seq![c]);
        assert(s[0] == c);
        assert(s.drop_first() =~= rest);
    }
}

/// Decoding the encoding of a value gives the value back.
pub proof fn law_encoding_round_trips(s: Seq<char>)
    ensures
        form_decode(url_encode_value_spec(s)) == s,
    decreases s.len(),
{
    if s.len() == 0 {
        assert(url_encode_value_spec(s) =~= Seq::<char>::empty());
    } else {
        let t = s.drop_first();
        law_encoding_round_trips(t);
        assert(s =~= seq![s[0]] + t);
        lemma_encode_concat(seq![s[0]], t);
        assert(seq![s[0]].drop_last() =~= Seq::<char>::empty());
        assert(url_encode_value_spec(Seq::<char>::empty()) =~= Seq::<char>::empty());
        assert(url_encode_value_spec(seq![s[0]]) == url_encode_value_spec(seq![s[0]].drop_last())
            + encode_char_spec(seq![s[0]].last()));
        assert(url_encode_value_spec(seq![s[0]]) =~= encode_char_spec(s[0]));
        lemma_decode_encoded_char(s[0], url_encode_value_spec(t));
        assert(seq![s[0]] + t =~= s);
    }
}

/// Every `%` in an encoded value starts one of the escapes the encoding
/// writes.
pub proof fn law_percent_starts_escape(s: Seq<char>)
    ensures
        forall|i: int|
            0 <= i < url_encode_value_spec(s).len() && #[trigger] url_encode_value_spec(s)[i] == '%'
                ==> i + 3 <= url_encode_value_spec(s).len() && is_encoding_escape(
                url_encode_value_spec(s).subrange(i, i + 3),
            ),
    decreases s.len(),
{
    reveal_strlit("+");
    reveal_strlit("%22");
    reveal_strlit("%25");
    reveal_strlit("%2B");
    reveal_strlit("%26");
    reveal_strlit("%3D");
    reveal_strlit("%23");
    if s.len() > 0 {
        law_percent_starts_escape(s.drop_last());
        let pre = url_encode_value_spec(s.drop_last());
        let tail = encode_char_spec(s.last());
        let out = url_encode_value_spec(s);
        assert(out == pre + tail);
        assert forall|i: int|
            0 <= i < out.len() && #[trigger] out[i] == '%' implies i + 3 <= out.len()
                && is_encoding_escape(out.subrange(i, i + 3)) by {
            if i < pre.len() {
                assert(pre[i] == '%');
                assert(out.subrange(i, i + 3) =~= pre.subrange(i, i + 3));
            } else {
                assert(tail[i - pre.len()] == '%');
                let c = s.last();
                if c == '"' || c == '%' || c == '+' || c == '&' || c == '=' || c == '#' {
                    assert(tail.len() == 3);
                    assert(tail[1] != '%');
                    assert(tail[2] != '%');
                } else if c == ' ' {
                    assert(tail.len() == 1);
                    assert(tail[0] == '+');
                } else {
                    assert(tail == seq![c]);
                }
                assert(i == pre.len());
                assert(out.subrange(i, i + 3) =~= tail);
            }
        }
    }
}

/// A description is shown unless it equals the summary: when the alert has
/// a description `d` and either no summary or a summary other than `d`,
/// the message holds `d` as a paragraph of its own.
pub proof fn law_description_shown_unless_equal_to_summary(alert: Alert, config: Config, now: Seq<char>, d: Seq<char>)
    requires
        opt_view(alert.description) == Some(d),
        opt_view(alert.annotations.summary) != Some(d),
    ensures
        exists|i: int|
            0 <= i && i + d.len() + 2 <= markdown_spec(alert, config, now).len() && #[trigger] markdown_spec(
                alert,
                config,
                now,
            ).subrange(i, i + d.len() + 2) == "\n"@ + d + "\n"@,
{
    let head = header_spec(alert, config) + opt_line_spec("\n*"@, alert.annotations.summary, "*\n"@);
    let block = "\n"@ + d + "\n"@;
    let rest = opt_line_spec("\n**Root cause analysis:** "@, alert.rca_summary, "\n"@) + details_spec(alert, config, now)
        + "\n"@ + join_spec(footer_items_spec(alert, config, now), " · "@) + "\n"@;
    let msg = markdown_spec(alert, config, now);
    reveal_strlit("\n");
    assert(paragraphs_spec(alert) == opt_line_spec("\n*"@, alert.annotations.summary, "*\n"@) + block
        + opt_line_spec("\n**Root cause analysis:** "@, alert.rca_summary, "\n"@));
    assert(msg =~= head + block + rest);
    let i = head.len() as int;
    assert(block.len() == d.len() + 2);
    assert(msg.subrange(i, i + d.len() + 2) =~= block);
}

/// The Graylog link needs a configured base URL, a namespace and an
/// application name: without any of them there is no link, and a link,
/// when there is one, starts with the configured base URL.
pub proof fn law_graylog_link_needs_namespace_and_app(alert: Alert, config: Config, now: Seq<char>)
    ensures
        alert.namespace is None ==> graylog_url_spec(alert, config, now) is None,
        alert.labels.app_name is None ==> graylog_url_spec(alert, config, now) is None,
        config.graylog_base_url@.len() == 0 ==> graylog_url_spec(alert, config, now) is None,
        graylog_url_spec(alert, config, now) matches Some(u) ==> u.len() >= config.graylog_base_url@.len()
            && u.subrange(0, config.graylog_base_url@.len() as int) == config.graylog_base_url@,
{
    if let Some(u) = graylog_url_spec(alert, config, now) {
        let b = config.graylog_base_url@;
        assert(u.subrange(0, b.len() as int) =~= b);
    }
}

} // verus!
