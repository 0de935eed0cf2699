# bevy_e2e

Out-of-process end-to-end testing for Bevy games: launch an already-built game
binary, drive it over the Bevy Remote Protocol (BRP) on loopback HTTP, select
entities by `E2eId`, send input, inspect reflected state and capture failure
diagnostics.

## Layout

- `src/` — the verified library (Verus). It holds the harness's decisions
  and the messages it builds or reads (what stays outside is listed under
  `app/`):
  - `options` — launch options, with the environment given to the child
    (framework variables last, so they win);
  - `capture` — bounded, tail-keeping capture of child output;
  - `child` — the child-process lifecycle: recorded exit status, idempotent
    reap, bounded waits for exit and for the output drains;
  - `client` — the JSON-RPC request body and the reading of a reply;
  - `selector` — query parameters and strict `E2eId` resolution;
  - `wait` — one poll of each wait (`wait_for`, `wait_for_gone`,
    `wait_frames`, `wait_until`) as a step function;
  - `game` — readiness probing, startup-timeout reports, graceful shutdown
    as a state machine, and what `run` reports;
  - `input`, `inspect`, `artifacts` — BRP messages, component/resource
    reads, session names and failure/world bundles;
  - `json` — the JSON model the library reads and writes; `text`, `error`,
    `runtime`, `id`, `time` — supporting pieces.
- `app/` — ordinary Rust around it: spawning and signalling the child
  (including which OS error a kill ignores), port selection, the drain
  threads, HTTP (`ureq`), the file system, sleeping and clocks, `serde_json`
  conversion, floating-point cursor arithmetic, and
  the public `Game`/`run` API.
- `tests/` — tests of the library.
