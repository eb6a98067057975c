# SMTP email plugin

`lenso.email.smtp` provides `lenso.email-dispatch@1` over a TLS-only SMTP relay. A caller hands it one
rendered message for one recipient; it checks the request, claims an effect fence in PostgreSQL,
submits the message, and records what became of it. A submission whose end is not known is never
repeated.

## Layout

- `src/` is the library. It holds every decision, written and proved in Verus: the rules of a
  configuration, the checks on a request, its digests and its message, the fence, the course of a
  dispatch, and the classification of what the relay did. `src/effects.rs` models the table of
  effects and states what holds of it whoever works on it.
- `app/` runs the library: SQL over `sqlx`, submission over `lettre`, secrets, and the plugin's
  lifecycle in the kernel.
- `tests/` runs the library on concrete values, with a table that is kept in memory.

## What is proved

- Of all the callers that ever come to the fence with one idempotency key, or for one attempt of a
  delivery, at most one submits a message.
- An effect ends once. Its response is replayed to everyone who asks again with the same request, and
  a sender that comes late cannot change it. All dispatches of a key that end with a response end
  with the same one.
- A key or an attempt that is reused for another request is refused before anything is sent.
- A sender that is never heard of again leaves `delivery_unknown` behind; with a valid configuration,
  a sender that keeps its timeouts keeps its fence.
- `accepted` is reported exactly for a positive completion. A retry is invited only by an explicit
  transient rejection, or where nothing was sent for want of credentials.
- A key, a delivery and an attempt are known by the SHA-256 of their bytes. The fingerprint of a
  request covers every field, the message identifier names the attempt alone,
  and the table holds nothing of a request but digests. These hold up to collisions of SHA-256.

## What is believed

The calls into `sha2`, `hex`, `lettre`, `chrono` and `lenso-postgres-kit` stand behind small wrappers,
each with a comment that says what is taken for granted of it. The model of the table stands for what
PostgreSQL does with the statements of `src/storage.rs`.

## Outcomes

| What was seen | Outcome |
| --- | --- |
| Positive completion | `accepted` |
| Transient rejection (4xx) | `temporary_failure`, to be tried again after a minute |
| Permanent rejection (5xx), or a relay that cannot be addressed | `permanent_failure` |
| Timeout, broken connection, TLS failure, or any other end | `delivery_unknown` |
| No credentials | `temporary_failure`; nothing was sent |
| Lease ran out | `delivery_unknown`; nothing is sent again |

`accepted` means that the relay took responsibility for the message, not that it was delivered.
