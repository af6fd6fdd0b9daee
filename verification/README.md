# uintr

A library for two-way communication between a server and a client process
through x86 user-mode interrupts (UINTR), with its decisions proved by Verus.

- `src/` is the verified library (crate `uintr`):
  - `lib.rs`: system-call numbers, flags, the error type and its messages;
  - `syscall.rs`: from raw UINTR system-call results to library results;
  - `connection.rs`: the `SCM_RIGHTS` control message that carries a
    descriptor, and the server and client handshakes as state machines;
  - `benchmark.rs`: the exact latency record, percentiles and summary;
  - `affinity.rs`: the core dedicated to sending interrupts and the worker cores;
  - `arguments.rs`, `parse.rs`: the message count on the command line;
  - `interrupt.rs`: interrupt tokens and the server/client token registry;
  - `async_wait.rs`: claiming interrupts from a sequence-counting token;
  - `session.rs`: the counted message exchange of server and client.
- `app/` performs the system calls, the user-interrupt instructions, socket
  I/O, timing, thread pinning and the async runtime, and holds the client and
  server programs.
- `tests/` runs the library on concrete values.
