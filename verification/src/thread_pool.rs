//! The tasks that an executor's workers run, and the messages they receive.
//!
//! A task owns a future that may be polled: the type's invariant. Running it polls
//! the future once; a task whose future is pending is handed back, to be parked until
//! its waker schedules it again.
use vstd::prelude::*;

use crate::future::{Future, LocalFutureObj, Poll};
use crate::task::Context;

verus! {

/// A future scheduled on an executor, with the executor's handle `H` for it.
pub struct Task<H> {
    future: LocalFutureObj<'static, ()>,
    handle: H,
}

/// What became of a task that was run.
pub enum TaskRun<H> {
    /// The future finished; the task is gone, its handle remains.
    Completed(H),
    /// The future is pending; the task is to be parked until it is woken.
    Parked(Task<H>),
}

impl<H> Task<H> {
    /// Every task may be polled.
    #[verifier::type_invariant]
    closed spec fn inv(self) -> bool {
        self.future.pollable()
    }

    /// The executor's handle for the task.
    pub closed spec fn spec_handle(&self) -> H {
        self.handle
    }

    /// The task's future.
    pub closed spec fn spec_future(&self) -> LocalFutureObj<'static, ()> {
        self.future
    }

    /// A task for `future`, which may be polled, with the executor's handle `handle`.
    pub fn new(future: LocalFutureObj<'static, ()>, handle: H) -> (r: Self)
        requires
            future.pollable(),
        ensures
            r.spec_handle() == handle,
            r.spec_future() == future,
    {
        Task { future, handle }
    }

    /// The executor's handle for the task.
    pub fn handle(&self) -> (r: &H)
        ensures
            *r == self.spec_handle(),
    {
        &self.handle
    }

    /// Polls the task's future once with `ctx`: a finished future completes the task
    /// (the future is dropped), a pending one leaves the task, with the polled future
    /// and the same handle, to be parked.
    pub fn run(self, ctx: &mut Context<'_>) -> (r: TaskRun<H>)
        ensures
            match r {
                TaskRun::Completed(h) => {
                    &&& h == self.spec_handle()
                    &&& self.spec_future().may_answer(Poll::Ready(()))
                },
                TaskRun::Parked(t) => {
                    &&& t.spec_handle() == self.spec_handle()
                    &&& t.spec_future().spec_origin() == self.spec_future().spec_origin()
                    &&& t.spec_future().spec_polls() == self.spec_future().spec_polls() + 1
                    &&& self.spec_future().may_answer(Poll::Pending)
                    &&& t.spec_future().pollable()
                },
            },
    {
        proof {
            use_type_invariant(&self);
        }
        let Task { future, handle } = self;
        let mut future = future;
        let answer = future.poll(ctx);
        match answer {
            Poll::Ready(value) => {
                assert(answer == Poll::Ready(value));
                TaskRun::Completed(handle)
            },
            Poll::Pending => TaskRun::Parked(Task { future, handle }),
        }
    }
}

/// What the workers of an executor receive.
pub enum Message<H> {
    /// A task for the receiving worker to poll.
    Run(Task<H>),
    /// Stop the worker that receives it.
    Close,
}

} // verus!
