# wasm_workshop

Verified logic for hosting WebAssembly guests and for the guests themselves.

- `src/` is the library, verified with Verus:
  - `fib` – the recursive Fibonacci benchmark kernel.
  - `memory` – a model of a guest's linear memory with the `write_i32` /
    `read_i32` operations that the isolation guest exports, and the laws that
    a read returns the last write, that a write touches only its four bytes,
    and that fresh memory reads zero. The exports themselves (in `app/`) work
    on the guest's real memory through raw pointers and do not call the
    model.
  - `abi` – packing a guest's result address and length into one `i64`, and
    unpacking it on the host, with the round-trip law.
  - `text` – Unicode white space, word counting (with the laws for joining
    and re-spacing texts), trimming, substring search and decimal rendering.
  - `guests` – the word-count plugin and the FaaS event handler.
  - `wasm` – engines, guest instances and the wrappers over Wasmtime; each
    wrapper that looks up an export, calls into a guest or copies through its
    memory reports what it did, failures included, in the guest's record.
  - `host` – instantiating modules (each guest records the module it runs
    and that its store is its own) and calling a guest's text-to-text export
    through its memory, stated over that record: which steps ran, in what
    order, and which step each error comes from.
  - `service` – the JSON HTTP service's routing and handlers.
  - `faas` – the serverless simulator's per-line decision.
- `app/` is the command-line front end: file, environment and terminal I/O,
  timing, loading modules from disk, and the guest export shims.
- `tests/` exercises the library, including a hand-assembled guest module run
  under Wasmtime.
