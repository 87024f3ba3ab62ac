# afterburner_wasi

The host side of a runtime that runs untrusted scripts in a WebAssembly sandbox. A script is compiled
and run by a guest; the guest asks its host for everything else: files, sockets, timers, HTTP
servers, further WebAssembly modules. This crate decides what the host answers.

`src/` is the library. Every function in it has a contract that Verus proves:

- `columnar`: batches of columns as one blob, encoded and decoded
- `wasm_engine`, `host_state`: limits of a run, how it ends, and the scripts that are kept
- `host_imports`, `host_calls`, `host_memory`, `host_requests`, `host_replies`, `host_values`: the
  functions that a guest imports, how their parameters are read, and how they are answered
- `wasm_loader`: modules that a script loads at run time
- `daemon_http`, `daemon_http_outbound`, `daemon_net`, `daemon_dgram`, `daemon_inspector`,
  `daemon_sab`, `daemon_port_claims`, `daemon_cluster`, `host`: the coordinators of a daemon
- `daemon_runtime`, `daemon_shard_pool`, `daemon_envelopes`: how a daemon lives, how requests reach
  its shards, and how events reach its script
- `manifold`, `manifold_codec`: what a script may do, and how a worker process is told
- `registry`, `json`, `codec`, `text`, `bytes`, `error`: what these are made of

What the outside crates do (`wasmtime`, `kovan_map`, `base64`, `hex`) is stated at the few functions
that call them; those statements are trusted.

`app/` is the ordinary code around it: it runs the engine, opens the sockets, maps the memory and
starts the threads. The services behind a guest's imports, such as files and cryptography, are the
embedder's to supply (`app/services.rs`). `tests/` runs the library on concrete values.
