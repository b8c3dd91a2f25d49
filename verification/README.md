# antibot-rs

Auto-managed [Byparr](https://github.com/ThePhaseless/byparr) / [FlareSolverr](https://github.com/FlareSolverr/FlareSolverr)
client for Rust web scrapers, with its logic proved in [Verus](https://github.com/verus-lang/verus).

## Layout

- `src/` is the library. It decides: which requests may share a solve, what is cached and for how
  long, what is retried and when, which instance a request goes to, how the solver's container is
  brought up and watched, what goes over the wire, and what a response shows. Every function has a
  contract, and Verus proves it. The library performs no I/O and reads no clock.
- `app/` is the client that runs: HTTP, Docker processes, clocks, tasks, JSON, files, and the
  quantities that are floating point. It asks the library what to do, does it, and hands the
  outcome back.
- `tests/` runs the library on concrete values, with a provider that answers from memory.

## What is proved

Each module states its functions over spec functions and views, and its laws as public proof
functions. Among the laws:

- repeat solves of a site are cache hits until the session expires, and a fresh solve replaces what
  was cached (`client`)
- concurrent solves under one key make one provider call, and nobody waits for a call that is gone
  (`client`, `coalesce`)
- POSTs and requests with a session, cookies, proxy or fingerprint of their own are never shared or
  cached (`client`, `session`)
- attempts are bounded, and only transient failures are retried (`client`, `retry`)
- the least-loaded instance is picked, in turn among equals, and caps are never exceeded (`pool`)
- starting a container changes only what it must, and waiting for the daemon ends at its deadline
  (`docker`)
- percent-encoding and form encoding lose nothing (`wire`)
- debug artifacts never overwrite one another, within a run or across runs that began in different
  milliseconds (`debug_replay`)

What the library takes from other crates stands in small trusted functions, each documented where it
is declared: `dashmap` for the indices (`store`), `http` for headers (`detect`), `psl` and `url` for
cache keys (`session_cache`), `serde_json` for JSON bodies (`request`, `wire`).

## Conventions

Clock readings (`time::Instant`, `time::SystemTime`) are arguments. Calls that stand for something
that takes time come as steps: a function takes what has happened and returns what to do next.

```rust
let mut client = Antibot::connect("http://localhost:8191");
match client.solve("https://example.com", now) {
    Start::Done(outcome) => { /* answered from the cache, or refused */ }
    Start::Run(job) => { /* client.dispatch(&job), send, client.after_attempt(..) */ }
}
```
