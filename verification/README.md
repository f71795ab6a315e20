# rmachine

State machines driven by typed inputs, on a single-threaded async runtime,
and the channels they are built on.

- `src/` is the verified library: the one-sender channel (`channel::spsc`),
  the latest-value channel (`channel::watch`), the one-value channel
  (`channel::oneshot`), the waker slots they share (`channel::atomic_waker`,
  `channel::registry`), and the acceptors and outputers of a running machine
  (`context`). Each channel is split into the state both ends share and the
  small state of each end; every operation of an end takes the shared state
  it works on, and its contract says how that state changes.
- `app/` is the runtime around it: handles that share a channel's state
  between tasks and implement `Future`, `Stream` and `Sink`; the executor
  that runs a machine's states; the handles that drive a machine.
- `tests/` runs the library on concrete values.

Waking a task is left to `std::task::Waker`, which the library holds but
cannot look into: the contracts say which waker slots are emptied or filled,
not that a task was woken. That part rests on reading `src/waker.rs` and the
functions that call it.
