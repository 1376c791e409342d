# notification_service

An alert relay: it receives alert payloads over HTTP, validates them,
renders them as Zulip Markdown, and posts a new Zulip message for the first
update of an alert fingerprint and edits that message on later updates.

- `src/` is the verified library (Verus):
  - `json` — a JSON model and JSON-Pointer lookup;
  - `models` — alert, incident and reminder payloads and their validation;
  - `config` — configuration from environment values, Keep links, stream
    routing and the Zulip topic;
  - `datetime` — timestamp parsing and rendering through `chrono`;
  - `formatter` — the Markdown message and the Graylog link;
  - `message_store` — the fingerprint → message-id map with TTL eviction;
  - `output` — delivery decisions and the interpretation of Zulip replies;
  - `processing` — enrichment of alerts;
  - `text` — string utilities with exact specifications.
- `app/` is the service around it: environment, HTTP server, Zulip HTTP
  calls, the eviction task and logging.
- `tests/` runs the library on concrete inputs.
