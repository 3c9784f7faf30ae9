//! Futures and the result of polling them.
//!
//! A [`Future`] is driven by calls to [`Future::poll`]; each call either
//! finishes the computation ([`Poll::Ready`]) or reports that it has to be
//! polled again later ([`Poll::Pending`]).
use vstd::prelude::*;

use crate::task::Context;

verus! {

/// The status of a future when it is polled: finished with a value, or pending.
pub enum Poll<T> {
    Ready(T),
    Pending,
}

/// `r` is a possible result of mapping `p` with `f`: the value of a ready poll is
/// replaced by a result of `f` on it, and a pending poll stays pending.
pub open spec fn mapped_by<T, U, F: FnOnce(T) -> U>(p: Poll<T>, f: F, r: Poll<U>) -> bool {
    match p {
        Poll::Ready(t) => r matches Poll::Ready(u) && f.ensures((t,), u),
        Poll::Pending => r is Pending,
    }
}

impl<T> Poll<T> {
    /// Applies `f` to the value of a ready poll; a pending poll stays pending.
    pub fn map<F, U>(self, f: F) -> (r: Poll<U>) where F: FnOnce(T) -> U
        requires
            self matches Poll::Ready(t) ==> f.requires((t,)),
        ensures
            mapped_by(self, f, r),
    {
        match self {
            Poll::Ready(t) => Poll::Ready(f(t)),
            Poll::Pending => Poll::Pending,
        }
    }

    /// Whether the poll is ready.
    pub fn is_ready(&self) -> (r: bool)
        ensures
            r == (self is Ready),
    {
        matches!(self, Poll::Ready(_))
    }

    /// Whether the poll is pending.
    pub fn is_pending(&self) -> (r: bool)
        ensures
            r == (self is Pending),
    {
        matches!(self, Poll::Pending)
    }
}

/// A poll is ready or pending, never both: `is_ready` and `is_pending` always answer
/// differently.
pub proof fn ready_xor_pending<T>(p: Poll<T>)
    ensures
        (p is Ready) != (p is Pending),
{
}

/// Mapping keeps the status of a poll: the result is ready exactly when the poll was.
pub proof fn map_keeps_status<T, U, F: FnOnce(T) -> U>(p: Poll<T>, f: F, r: Poll<U>)
    requires
        mapped_by(p, f, r),
    ensures
        (r is Ready) == (p is Ready),
{
}

/// Mapping with a function that gives back its argument gives back the poll.
pub proof fn map_identity<T, F: FnOnce(T) -> T>(p: Poll<T>, f: F, r: Poll<T>)
    requires
        mapped_by(p, f, r),
        forall|t: T, u: T| f.ensures((t,), u) ==> u == t,
    ensures
        r == p,
{
}

/// Mapping twice is mapping once with the composition: the value of a ready poll is
/// replaced by a result of `g` on a result of `f` on it; a pending poll stays pending.
pub proof fn map_compose<T, U, V, F: FnOnce(T) -> U, G: FnOnce(U) -> V>(
    p: Poll<T>,
    f: F,
    q: Poll<U>,
    g: G,
    r: Poll<V>,
)
    requires
        mapped_by(p, f, q),
        mapped_by(q, g, r),
    ensures
        match p {
            Poll::Ready(t) => r matches Poll::Ready(v) && exists|u: U|
                #![trigger f.ensures((t,), u)]
                f.ensures((t,), u) && g.ensures((u,), v),
            Poll::Pending => r is Pending,
        },
{
    if let Poll::Ready(t) = p {
        let u = q->0;
        assert(f.ensures((t,), u));
    }
}

/// `r` is a possible result of mapping the successes of `p` with `f`: the value of a
/// ready success is replaced by a result of `f` on it; errors and pending polls pass.
pub open spec fn ok_mapped_by<T, E, U, F: FnOnce(T) -> U>(
    p: Poll<Result<T, E>>,
    f: F,
    r: Poll<Result<U, E>>,
) -> bool {
    match p {
        Poll::Ready(Ok(t)) => r matches Poll::Ready(Ok(u)) && f.ensures((t,), u),
        Poll::Ready(Err(e)) => r == Poll::<Result<U, E>>::Ready(Err(e)),
        Poll::Pending => r is Pending,
    }
}

/// `r` is a possible result of mapping the errors of `p` with `f`: the error of a
/// ready failure is replaced by a result of `f` on it; successes and pending polls pass.
pub open spec fn err_mapped_by<T, E, U, F: FnOnce(E) -> U>(
    p: Poll<Result<T, E>>,
    f: F,
    r: Poll<Result<T, U>>,
) -> bool {
    match p {
        Poll::Ready(Ok(t)) => r == Poll::<Result<T, U>>::Ready(Ok(t)),
        Poll::Ready(Err(e)) => r matches Poll::Ready(Err(u)) && f.ensures((e,), u),
        Poll::Pending => r is Pending,
    }
}

/// Mapping the successes and mapping the errors commute: for functions that give one
/// result for each argument, `map_ok(f)` then `map_err(g)` gives what `map_err(g)` then
/// `map_ok(f)` gives.
pub proof fn map_ok_err_commute<T, E, U, V, F: FnOnce(T) -> U, G: FnOnce(E) -> V>(
    p: Poll<Result<T, E>>,
    f: F,
    g: G,
    ok_first: Poll<Result<U, E>>,
    ok_then_err: Poll<Result<U, V>>,
    err_first: Poll<Result<T, V>>,
    err_then_ok: Poll<Result<U, V>>,
)
    requires
        ok_mapped_by(p, f, ok_first),
        err_mapped_by(ok_first, g, ok_then_err),
        err_mapped_by(p, g, err_first),
        ok_mapped_by(err_first, f, err_then_ok),
        forall|t: T, u1: U, u2: U|
            #![trigger f.ensures((t,), u1), f.ensures((t,), u2)]
            f.ensures((t,), u1) && f.ensures((t,), u2) ==> u1 == u2,
        forall|e: E, v1: V, v2: V|
            #![trigger g.ensures((e,), v1), g.ensures((e,), v2)]
            g.ensures((e,), v1) && g.ensures((e,), v2) ==> v1 == v2,
    ensures
        ok_then_err == err_then_ok,
{
}

impl<T, E> Poll<Result<T, E>> {
    /// Applies `f` to the value of a ready success; errors and pending polls pass through.
    pub fn map_ok<F, U>(self, f: F) -> (r: Poll<Result<U, E>>) where F: FnOnce(T) -> U
        requires
            self matches Poll::Ready(Ok(t)) ==> f.requires((t,)),
        ensures
            ok_mapped_by(self, f, r),
    {
        match self {
            Poll::Ready(Ok(t)) => Poll::Ready(Ok(f(t))),
            Poll::Ready(Err(e)) => Poll::Ready(Err(e)),
            _ => Poll::Pending,
        }
    }

    /// Applies `f` to the error of a ready failure; successes and pending polls pass through.
    pub fn map_err<F, U>(self, f: F) -> (r: Poll<Result<T, U>>) where F: FnOnce(E) -> U
        requires
            self matches Poll::Ready(Err(e)) ==> f.requires((e,)),
        ensures
            err_mapped_by(self, f, r),
    {
        match self {
            Poll::Ready(Ok(t)) => Poll::Ready(Ok(t)),
            Poll::Ready(Err(e)) => Poll::Ready(Err(f(e))),
            Poll::Pending => Poll::Pending,
        }
    }
}

impl<T, E> Poll<Option<Result<T, E>>> {
    /// Applies `f` to the value of a ready `Some(Ok(..))`; everything else passes through.
    pub fn map_ok<F, U>(self, f: F) -> (r: Poll<Option<Result<U, E>>>) where F: FnOnce(T) -> U
        requires
            self matches Poll::Ready(Some(Ok(t))) ==> f.requires((t,)),
        ensures
            match self {
                Poll::Pending => r is Pending,
                Poll::Ready(None) => r == Poll::<Option<Result<U, E>>>::Ready(None),
                Poll::Ready(Some(Ok(t))) => r matches Poll::Ready(Some(Ok(u))) && f.ensures(
                    (t,),
                    u,
                ),
                Poll::Ready(Some(Err(e))) => r == Poll::<Option<Result<U, E>>>::Ready(
                    Some(Err(e)),
                ),
            },
    {
        match self {
            Poll::Pending => Poll::Pending,
            Poll::Ready(None) => Poll::Ready(None),
            Poll::Ready(Some(Ok(t))) => Poll::Ready(Some(Ok(f(t)))),
            Poll::Ready(Some(Err(e))) => Poll::Ready(Some(Err(e))),
        }
    }

    /// Applies `f` to the error of a ready `Some(Err(..))`; everything else passes through.
    pub fn map_err<F, U>(self, f: F) -> (r: Poll<Option<Result<T, U>>>) where F: FnOnce(E) -> U
        requires
            self matches Poll::Ready(Some(Err(e))) ==> f.requires((e,)),
        ensures
            match self {
                Poll::Pending => r is Pending,
                Poll::Ready(None) => r == Poll::<Option<Result<T, U>>>::Ready(None),
                Poll::Ready(Some(Ok(t))) => r == Poll::<Option<Result<T, U>>>::Ready(
                    Some(Ok(t)),
                ),
                Poll::Ready(Some(Err(e))) => r matches Poll::Ready(Some(Err(u))) && f.ensures(
                    (e,),
                    u,
                ),
            },
    {
        match self {
            Poll::Pending => Poll::Pending,
            Poll::Ready(None) => Poll::Ready(None),
            Poll::Ready(Some(Ok(t))) => Poll::Ready(Some(Ok(t))),
            Poll::Ready(Some(Err(e))) => Poll::Ready(Some(Err(f(e)))),
        }
    }
}

impl<T> From<T> for Poll<T> {
    /// A value converts into a ready poll of it.
    fn from(value: T) -> (r: Self) {
        Poll::Ready(value)
    }
}

impl<T> vstd::std_specs::convert::FromSpecImpl<T> for Poll<T> {
    open spec fn obeys_from_spec() -> bool {
        true
    }

    open spec fn from_spec(v: T) -> Self {
        Poll::Ready(v)
    }
}

/// The state of an asynchronous computation, driven to completion by `poll`.
///
/// `pollable` says whether the future may be polled now. A future that answered
/// `Pending` may be polled again; one that answered `Ready` may refuse further polls.
/// `may_answer` says which answers a poll in the present state may give.
pub trait Future {
    /// The type of the value that the computation produces.
    type Output;

    /// Whether the future may be polled in its present state.
    spec fn pollable(&self) -> bool;

    /// Whether `r` is an answer that a poll of the future in its present state may give.
    spec fn may_answer(&self, r: Poll<Self::Output>) -> bool;

    /// Advances the computation, using `ctx` to arrange to be woken when it can progress.
    fn poll(&mut self, ctx: &mut Context<'_>) -> (r: Poll<Self::Output>)
        requires
            old(self).pollable(),
        ensures
            old(self).may_answer(r),
            r is Pending ==> final(self).pollable(),
    ;
}

impl<'b, F: Future> Future for &'b mut F {
    type Output = F::Output;

    open spec fn pollable(&self) -> bool {
        (**self).pollable()
    }

    /// The answers of the future behind the pointer.
    open spec fn may_answer(&self, r: Poll<F::Output>) -> bool {
        (**self).may_answer(r)
    }

    /// Polls the future behind the pointer: its answer and its new state are this poll's.
    fn poll(&mut self, ctx: &mut Context<'_>) -> (r: Poll<F::Output>) {
        (**self).poll(ctx)
    }
}

impl<F: Future> Future for Box<F> {
    type Output = F::Output;

    open spec fn pollable(&self) -> bool {
        (**self).pollable()
    }

    /// The answers of the future behind the pointer.
    open spec fn may_answer(&self, r: Poll<F::Output>) -> bool {
        (**self).may_answer(r)
    }

    /// Polls the future behind the pointer: its answer and its new state are this poll's.
    fn poll(&mut self, ctx: &mut Context<'_>) -> (r: Poll<F::Output>) {
        (**self).poll(ctx)
    }
}

/// A future that is ready at once with the value it holds.
pub struct Ready<T>(pub Option<T>);

impl<T> Future for Ready<T> {
    type Output = T;

    /// A `Ready` future may be polled while it still holds its value.
    open spec fn pollable(&self) -> bool {
        self.0 is Some
    }

    /// The one answer: ready with the held value.
    open spec fn may_answer(&self, r: Poll<T>) -> bool {
        r == Poll::Ready(self.0->0)
    }

    /// Gives up the held value: the first poll is ready with it, and leaves the future empty.
    fn poll(&mut self, _ctx: &mut Context<'_>) -> (r: Poll<T>)
        ensures
            r == Poll::Ready(old(self).0->0),
            final(self).0 is None,
    {
        match self.0.take() {
            Some(v) => Poll::Ready(v),
            None => Poll::Pending,
        }
    }
}

/// A future whose concrete type has been erased, so that it can be stored and polled
/// through a trait object of this trait. Every future is one.
pub trait UnsafeFutureObj<'a, T>: 'a {
    /// Whether the erased future may be polled now.
    spec fn obj_pollable(&self) -> bool;

    /// Whether `r` is an answer that a poll of the erased future may give now.
    spec fn obj_may_answer(&self, r: Poll<T>) -> bool;

    /// Polls the erased future.
    fn poll_obj(&mut self, ctx: &mut Context<'_>) -> (r: Poll<T>)
        requires
            old(self).obj_pollable(),
        ensures
            old(self).obj_may_answer(r),
            r is Pending ==> final(self).obj_pollable(),
    ;
}

impl<'a, T, F: Future<Output = T> + 'a> UnsafeFutureObj<'a, T> for F {
    open spec fn obj_pollable(&self) -> bool {
        self.pollable()
    }

    open spec fn obj_may_answer(&self, r: Poll<T>) -> bool {
        self.may_answer(r)
    }

    fn poll_obj(&mut self, ctx: &mut Context<'_>) -> (r: Poll<T>) {
        self.poll(ctx)
    }
}

/// A future of output `T` stored behind a trait object, so that traits such as
/// [`crate::spawn::Spawn`] can take futures of any type as one parameter type.
///
/// Besides the erased future, it records (in ghost state, for proofs only) the erased
/// future as it was made and how many times it has been polled since: what tells this
/// future apart from another one.
#[verifier::reject_recursive_types(T)]
pub struct LocalFutureObj<'a, T> {
    future: Box<dyn UnsafeFutureObj<'a, T> + 'a>,
    origin: Ghost<Box<dyn UnsafeFutureObj<'a, T> + 'a>>,
    polls: Ghost<nat>,
}

impl<'a, T> LocalFutureObj<'a, T> {
    /// The erased future as it was when this object was made.
    pub closed spec fn spec_origin(&self) -> Box<dyn UnsafeFutureObj<'a, T> + 'a> {
        self.origin@
    }

    /// How many times the future has been polled since it was made.
    pub closed spec fn spec_polls(&self) -> nat {
        self.polls@
    }

    /// Erases the type of the future `f`.
    pub fn new<F: UnsafeFutureObj<'a, T>>(f: F) -> (r: Self)
        ensures
            r.pollable() == f.obj_pollable(),
            forall|p: Poll<T>| r.may_answer(p) == f.obj_may_answer(p),
            r.spec_polls() == 0,
    {
        let future: Box<dyn UnsafeFutureObj<'a, T> + 'a> = Box::new(f);
        let ghost origin = future;
        LocalFutureObj { future, origin: Ghost(origin), polls: Ghost(0) }
    }
}

impl<'a, T: 'a> Future for LocalFutureObj<'a, T> {
    type Output = T;

    closed spec fn pollable(&self) -> bool {
        self.future.obj_pollable()
    }

    closed spec fn may_answer(&self, r: Poll<T>) -> bool {
        self.future.obj_may_answer(r)
    }

    /// Polls the erased future; it stays the same future, polled once more.
    fn poll(&mut self, ctx: &mut Context<'_>) -> (r: Poll<T>)
        ensures
            final(self).spec_origin() == old(self).spec_origin(),
            final(self).spec_polls() == old(self).spec_polls() + 1,
    {
        let r = self.future.poll_obj(ctx);
        self.polls = Ghost(self.polls@ + 1);
        r
    }
}

} // verus!
