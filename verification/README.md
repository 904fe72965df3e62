# agent_framework

A multi-agent runtime whose rules are verified with Verus: guardrails
(content filter, token-bucket rate limiter, cost limiter, tool allowlist and
the chain that runs them), human approval strategies and their audit trail,
conversations with token estimates and truncation, the decisions of the
OpenAI and Anthropic providers, the agent hierarchy, registry and
coordinator, and spawning agents from role templates.

Layout:

- `src/` — the verified library. Each module states its contracts over
  mathematical models (`Seq`, `Map`, `Set`, views); laws that relate several
  operations are public proof functions beside them.
- `app/` — the program around it: reading configuration files, logging,
  HTTP and in-process transports, the asynchronous guardrail, approval and
  provider interfaces, and agents' message loops.
- `tests/` — tests of the library on concrete values.
