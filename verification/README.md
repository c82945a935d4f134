# proxy_core

The decisions of a mining proxy's stream handler, proved with Verus.

A session stands between one mining worker and its pool. Now and then a job
of the developer account or of the fee account takes the place of a job from
the pool, and shares on such jobs go to that account. The library decides,
event by event, what the session does; the caller performs the I/O.

- `src/session.rs`: the session state, its handlers for the worker's
  requests, the pool's lines and the queued fee jobs, and their models.
- `src/laws.rs`: what holds across events (heights never go down, stale jobs
  are never handed out, a share follows the account of its job, ...).
- `src/protocol.rs`: method names, job ids, heights and hash rates.
- `src/hex.rs`: `0x`-prefixed hexadecimal quantities, read and written.
- `src/frames.rs`: newline-delimited frames.
- `src/worker.rs`: the worker's counters.
- `src/interval.rs`: the random interval at which counters are reported.
- `app/`: the async loop over tokio streams and channels, JSON parsing and
  writing, and the floating-point fee dice and hash-rate scaling.
