# vtcode_acp

The decision logic of an agent that speaks the Agent Client Protocol over
stdio, and of the checks an A2A server makes on its requests, written in
Verus and proved against its contracts. The HTTP server and the ACP agent
loop themselves are not part of this crate.

## Layout

- `src/` — the verified library, one module per concern:
  - `permissions`, `reports`, `tool_call` — tool permission prompts,
    remembered decisions, the hook, permission and cancellation steps of a
    tool call, and the reports it ends with;
  - `recovery` — closing tool calls that a transcript left unanswered;
  - `compaction` — prompt estimates, admission budgets and when to compact;
  - `turn`, `streaming` — the decisions of a prompt turn: the checks before
    it runs, retries, cancellation, deadlines, tool rounds, incomplete turns;
  - `session_config` — the session options a client may set;
  - `subagent_ownership` — which subagent tasks a session may manage;
  - `rate_limits`, `telemetry` — rate-limit snapshots and notices, metric
    vocabulary and client-safe failure projections;
  - `transport`, `json_value` — bounded line reading, frame decoding and
    routing for JSON-RPC over stdio;
  - `auth`, `a2a` — bearer tokens, A2A error statuses and the streaming
    endpoint's checks;
  - `sessions`, `task_plan`, `tasks`, `activity`, `exec_output`,
    `handshake`, `subagents`, `tool_args` — smaller protocol pieces;
  - `text`, `ansi`, `decimal`, `json`, `ids` — text helpers, terminal
    escape removal, and the calls into
    `serde_json`, `uuid` and the standard library that the logic relies on.
- `tests/` — tests of the library on concrete values.
- `app/` — the runtime around it: the subprocess transport on Tokio, the
  clock, and JSON conversions.

Laws that relate several functions are stated as public proof functions named
`law_…` next to the functions they speak of.
