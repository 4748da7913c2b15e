# learning_async

A small single-threaded async runtime on Linux epoll, with sleeping, TCP
connect and TCP read futures.

- `src/` is the verified core, checked with Verus: how epoll user data packs
  a descriptor and its kind (`event`), the event loop's bookkeeping and its
  reactions to messages and events (`event_loop`), recognising the stop
  command (`text`), the progress of the leaf futures (`sleep`, `tcp`), and the
  decisions of the example epoll loop (`example`).
- `app/` performs what the core decides: the system calls through `nix`,
  wakers, the message queue between futures and the runtime, and the loops.
- `tests/` exercises the core on concrete values.
