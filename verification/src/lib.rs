//! A small asynchronous runtime: futures, wakers and their bookkeeping.
pub mod future;
pub mod task;
pub mod spawn;
pub mod say_twice;
pub mod thread_pool;
pub mod net;
