# Notification

A transactional notification ledger with machine-checked rules.

The ledger accepts intents for organization invitations and access-request
notifications, keeps the rendered message protected, and records every attempt,
receipt and retry decision of a delivery. Acceptance by a provider is never
taken for delivery; only an authoritative receipt proves one. A result that
leaves open what became of a message is final and never tried again.

## Layout

- `src/` holds the rules, in Verus: which requests are accepted, what each
  observation does to a delivery, what may be claimed and when, what is shown,
  and when a database schema is the expected one. Every function states what it
  returns, and `law_…` functions state what holds across functions. Calls into
  other crates stand behind small wrappers whose doc comments say what is
  taken for granted of them.
- `app/` is ordinary Rust around the rules: PostgreSQL storage, the capability
  roles and their lifecycle, agent tools and the console's HTTP routes.
- `tests/` runs the library on concrete values.

## Modules

| Module | Rules |
| --- | --- |
| `domain`, `history` | delivery statuses, retry policy, a delivery over time |
| `public`, `intent`, `requests`, `render` | intents and their identity, boundary requests, template requests |
| `snapshot`, `digest`, `redacted` | protection, digests, redaction |
| `runtime`, `dispatch`, `events`, `observation` | claims, provider replies, observations and their identity |
| `creation`, `worker`, `consumption` | the order in which the ledger and the providers are asked |
| `repository`, `projection`, `answers` | reads, manual retries, what is answered |
| `catalog`, `operator`, `host_ledger` | schema fingerprints and adoption |
| `config`, `business_api`, `agent_tools`, `module` | authority and surfaces |
| `text`, `json`, `time`, `faults`, `error` | shared vocabulary |
