//! A future that runs two futures one after the other, written as a state machine.
use vstd::prelude::*;

use crate::future::{Future, Poll};
use crate::task::Context;

verus! {

/// How far a [`SayTwiceFuture`] has come.
#[derive(Clone, Copy, PartialEq, Eq, Structural)]
pub enum Fstate {
    /// The first future has not finished.
    Start,
    /// The first future has finished, the second has not.
    F1Done,
    /// Both futures have finished.
    F2Done,
}

/// The position of a state in the order in which the states are passed through.
pub open spec fn stage(s: Fstate) -> nat {
    match s {
        Fstate::Start => 0,
        Fstate::F1Done => 1,
        Fstate::F2Done => 2,
    }
}

/// The state after one poll in state `s`, where `inner_ready` says whether the future
/// polled in that state (the first in `Start`, the second in `F1Done`) was ready.
pub open spec fn next_fstate(s: Fstate, inner_ready: bool) -> Fstate {
    match s {
        Fstate::Start => if inner_ready {
            Fstate::F1Done
        } else {
            Fstate::Start
        },
        Fstate::F1Done => if inner_ready {
            Fstate::F2Done
        } else {
            Fstate::F1Done
        },
        Fstate::F2Done => Fstate::F2Done,
    }
}

/// Polls `f1` until it is ready, then `f2` until it is ready, then is ready itself.
///
/// A poll that finishes one of the two futures still answers `Pending`; only a poll
/// after both have finished answers `Ready`.
pub struct SayTwiceFuture<F> {
    f1: F,
    f2: F,
    state: Fstate,
}

impl<F: Future> SayTwiceFuture<F> {
    /// The state the future is in.
    pub closed spec fn spec_state(&self) -> Fstate {
        self.state
    }

    /// The first future.
    pub closed spec fn spec_f1(&self) -> F {
        self.f1
    }

    /// The second future.
    pub closed spec fn spec_f2(&self) -> F {
        self.f2
    }

    /// A future that runs `f1` and then `f2`.
    pub fn new(f1: F, f2: F) -> (r: Self)
        ensures
            r.spec_state() == Fstate::Start,
            r.spec_f1() == f1,
            r.spec_f2() == f2,
    {
        SayTwiceFuture { f1, f2, state: Fstate::Start }
    }

    /// The state the future is in.
    pub fn state(&self) -> (r: Fstate)
        ensures
            r == self.spec_state(),
    {
        self.state
    }
}

impl<F: Future> Future for SayTwiceFuture<F> {
    type Output = ();

    /// The future may be polled while the futures it has still to poll may be.
    open spec fn pollable(&self) -> bool {
        match self.spec_state() {
            Fstate::Start => self.spec_f1().pollable() && self.spec_f2().pollable(),
            Fstate::F1Done => self.spec_f2().pollable(),
            Fstate::F2Done => true,
        }
    }

    /// Ready exactly when both futures have finished.
    open spec fn may_answer(&self, r: Poll<()>) -> bool {
        r is Ready <==> self.spec_state() == Fstate::F2Done
    }

    /// Polls the future due in the present state (the first in `Start`, the second in
    /// `F1Done`, none once both are done) and moves on exactly when it answers ready.
    fn poll(&mut self, ctx: &mut Context<'_>) -> (r: Poll<()>)
        ensures
            r is Ready <==> old(self).spec_state() == Fstate::F2Done,
            old(self).spec_state() == Fstate::Start ==> exists|inner: Poll<F::Output>|
                #![trigger old(self).spec_f1().may_answer(inner)]
                {
                    &&& old(self).spec_f1().may_answer(inner)
                    &&& final(self).spec_state() == next_fstate(Fstate::Start, inner is Ready)
                    &&& inner is Pending ==> final(self).spec_f1().pollable()
                },
            old(self).spec_state() == Fstate::F1Done ==> exists|inner: Poll<F::Output>|
                #![trigger old(self).spec_f2().may_answer(inner)]
                {
                    &&& old(self).spec_f2().may_answer(inner)
                    &&& final(self).spec_state() == next_fstate(Fstate::F1Done, inner is Ready)
                    &&& inner is Pending ==> final(self).spec_f2().pollable()
                },
            old(self).spec_state() == Fstate::F2Done ==> final(self).spec_state() == Fstate::F2Done,
            old(self).spec_state() != Fstate::Start ==> final(self).spec_f1() == old(
                self,
            ).spec_f1(),
            old(self).spec_state() != Fstate::F1Done ==> final(self).spec_f2() == old(
                self,
            ).spec_f2(),
    {
        let next = match self.state {
            Fstate::Start => {
                let res = self.f1.poll(ctx);
                match res {
                    Poll::Ready(_) => Fstate::F1Done,
                    Poll::Pending => Fstate::Start,
                }
            },
            Fstate::F1Done => {
                let res = self.f2.poll(ctx);
                match res {
                    Poll::Ready(_) => Fstate::F2Done,
                    Poll::Pending => Fstate::F1Done,
                }
            },
            Fstate::F2Done => {
                return Poll::Ready(());
            },
        };
        self.state = next;
        Poll::Pending
    }
}

/// The state of a [`SayTwiceFuture`] never moves back: each poll keeps it or moves it
/// one stage on, and once both futures have finished it stays there.
pub proof fn say_twice_state_moves_forward(s: Fstate, inner_ready: bool)
    ensures
        stage(s) <= stage(next_fstate(s, inner_ready)) <= stage(s) + 1,
        s == Fstate::F2Done ==> next_fstate(s, inner_ready) == Fstate::F2Done,
        inner_ready ==> next_fstate(s, inner_ready) != s || s == Fstate::F2Done,
{
}

/// The state after polls, starting in `s`, in which the future due was ready or not as
/// `readies` says, in order (a poll after both futures finished polls nothing, and its
/// entry does not matter).
pub open spec fn fstate_after(s: Fstate, readies: Seq<bool>) -> Fstate
    decreases readies.len(),
{
    if readies.len() == 0 {
        s
    } else {
        next_fstate(fstate_after(s, readies.drop_last()), readies.last())
    }
}

/// How many entries of `readies` are `true`.
pub open spec fn count_ready(readies: Seq<bool>) -> nat
    decreases readies.len(),
{
    if readies.len() == 0 {
        0
    } else {
        count_ready(readies.drop_last()) + if readies.last() {
            1nat
        } else {
            0nat
        }
    }
}

/// Over any sequence of polls of a new [`SayTwiceFuture`], each ready answer of the
/// future due finishes one more of the two, first `f1`, then `f2`: the stage reached is
/// the number of ready answers, up to two. So `f2` is polled only once `f1` has been
/// ready, and the future answers `Ready` exactly once both have been.
pub proof fn say_twice_polls_in_order(readies: Seq<bool>)
    ensures
        stage(fstate_after(Fstate::Start, readies)) == (if count_ready(readies) < 2 {
            count_ready(readies)
        } else {
            2
        }),
    decreases readies.len(),
{
    if readies.len() > 0 {
        say_twice_polls_in_order(readies.drop_last());
    }
}

} // verus!
