# codex_exec

Headless runs of a coding agent, and the events by which a run reports its plan.

- `src/` is the library: every decision of a run, verified with Verus. A function that would touch
  a file, the network or the agent returns what is to be done instead: a list of steps, the next
  state of a delivery, the next phase of a run.
- `src/outside.rs` holds the calls into other crates, each with what is believed of it. Nothing
  else in the library is taken on trust.
- `app/` carries out what the library decides: arguments, files, HTTP, signals and the agent.
- `tests/` runs the library with the real crates.

## What is emitted

A plan is printed (`@plan` and one line of JSON), appended to a log, written to a state file that
is replaced as a whole, and posted to a webhook. Each destination is opt-in. A request is signed
with HMAC-SHA256 over `v0:{timestamp}:{body}`, and is tried four times at most. The end of a run is
reported as an event of its own kind, to all of these but the state file, which keeps the latest
plan.

Events bear contiguous sequence numbers: only a plan that reached every destination uses up its
number, and the last number is kept in `plan.meta.json` beside the state file. The end of a run
bears the number of the next plan; its kind tells the two apart.
