# llm_guard_proxy

The decisions of a guard proxy for OpenAI-compatible upstreams, verified with
Verus: which requests are admitted and how long they wait, whose they are and
where they go, how chats are shielded and retried, when an upstream is recovered,
and what is recorded and answered at the end.

- `src/` is the library. Every function states what it returns or changes, and is
  proved to, but for the readings of the clock, of which nothing is promised. What it
  takes from other crates (JSON, URLs, header names, methods, number formatting, the
  errors of the HTTP client) stands behind small trusted functions, each with a
  comment on what is claimed of it.
- `tests/` runs the library on concrete values.
- `app/` is the HTTP edge: sockets, clocks, processes and tasks. It performs what
  the library decides and hands back what came of it. `Environment` is what it asks
  of the process around it.

A request goes through `request_flow::advance`, one event at a time. Shielded
chats go through `shielded_run::ShieldedRun`, endpoints through
`failover::FailoverRun`, and bodies through `bodies`. Properties that span several
functions are stated as public proof functions beside them, such as
`admission::limits_are_kept`, `request_flow::requests_are_answered_once` or
`shielded_run::every_attempt_is_recorded`.
