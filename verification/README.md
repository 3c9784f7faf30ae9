# how_not_to_async

A small asynchronous runtime, for learning how one is put together: futures and
their `Poll` results, wakers and the context passed to `poll`, an atomic waker slot,
an executor backed by a thread pool, and a mio event loop that wakes tasks when their
sockets become readable.

## Layout

- `src/` is the library, verified with Verus.
  - `future.rs`: `Poll` and its combinators, the `Future` trait, `Ready`, and
    `LocalFutureObj`, a future behind a trait object.
  - `task.rs`: `RawWaker`, `RawWakerVTable`, `Waker`, `Context`, `ArcWake`;
    `WakerSlot`, the slot of an atomic waker as the caller that holds it sees it; the
    decisions an atomic waker takes on the state word it reads (`register_path`,
    `release_must_wake`, `take_acquires`); and a model of the locking protocol built
    from those decisions, with proofs that each step, and any interleaving of steps,
    keeps the state word in agreement with the holder of the slot, and that callers
    who meet hand their wakes over. The proof is about the model: the
    atomic word itself is not visible to the verifier.
  - `spawn.rs`: the `Spawn` trait of executors.
  - `thread_pool.rs`: the tasks an executor runs (every task may be polled: the
    type's invariant) and the messages its workers receive.
  - `say_twice.rs`: a future that runs two futures in turn, as a state machine.
  - `net/io_service.rs`: the table from event tokens to waker slots, and whether the
    event loop handles the events after a wait.
  - `net/socket.rs`: what an accepting future answers after an accept attempt.
- `app/` is the program: the worker threads and their channel, the wakers built from
  `Arc`s, `AtomicWaker` (the atomic state word and the shared cell around a
  `WakerSlot`), the mio event loop and the TCP acceptor, and `main`.
- `tests/` runs the library on concrete values.
