# Grid Worker Pool

`grid_worker_pool` is a worker pool for async Rust on the Tokio runtime, with
its logic verified by Verus. A fixed number of long-lived workers each own a
clone of a `Work` and take one job at a time:

- `WorkerHandle::send` sends a job and forgets it, `WorkerHandle::run` sends one
  and waits for its output;
- `WorkerPool::drain` stops accepting work, `WorkerPool::wait` waits for the
  workers to exit, and `WorkerPool::close` does both.

## Layout

- `src/` is the library. Nothing in it suspends: a function polls once, or says
  what to await and takes the answer.
  - `work.rs`: the `Work` trait
  - `worker.rs`: the worker's loop, one step at a time, and its guard
  - `handle.rs`: handing a job to a worker, and its output back
  - `pool.rs`: the pool
  - `protocol.rs`: the stages of a worker and the steps of a wait
  - `system.rs`: a model of a whole pool on Tokio, with what it assumes
  - `laws.rs`, `tally.rs`: what holds of the library's steps, and of that model
    in every order of its steps
  - `channel.rs`, `external.rs`: what is taken on trust of Tokio
- `app/` runs the library on Tokio: it spawns the workers and awaits.
- `tests/` drives the library, with and without a runtime.

## Example

With the pool of `app/`:

```rust
#[derive(Clone)]
struct Doubler;

impl Work for Doubler {
    type Input = u64;
    type Output = u64;
    type Running<'a> = std::future::Ready<u64>;

    fn run<'a>(&'a mut self, input: u64) -> Self::Running<'a> {
        std::future::ready(input * 2)
    }
}

let mut pool = WorkerPool::new(Doubler, 4);

let worker = pool.get().await.expect("worker available");
let output = worker.run(21).await.expect("job completed");
assert_eq!(output, 42);

pool.close().await;
```
