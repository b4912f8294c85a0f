# bettermq

The front end of a webhook message broker: which requests it takes, what it asks the broker to
publish or to schedule, how it answers, where dead letters are found, and when a destination is
blocked.

- `src/` is the library, verified with Verus. Each public function states what it returns; the
  proof functions whose names begin with `law_` state what holds across functions.
- `src/outside.rs` holds every call into another crate, each with what is relied on.
- `tests/` runs the library on concrete values.
- `app/` is the server around it: HTTP handlers, the JSON forms, the clock, the lock and the
  command line. It uses the other crates of the broker (`broker_*`).

| Module | Content |
| --- | --- |
| `host_blocker` | circuit breaker per destination host |
| `dlq`, `topic` | dead-letter topics, their listings and their sources |
| `publish` | from requests to publications and deliveries |
| `cron`, `delayed` | recurring and delayed publications |
| `worker` | what the schedule worker does in a tick |
| `flow` | flow profiles and lanes |
| `queue` | queues |
| `cluster`, `serve` | configuration of a cluster and of the server |
| `routes` | routes of the HTTP interface |
| `startup_banner` | banner of the server |
| `error` | refusals and their answers |
| `text`, `ids` | texts and identifiers |
