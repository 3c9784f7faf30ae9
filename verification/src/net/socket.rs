//! What an accepting future answers after one attempt to accept a connection.
use vstd::prelude::*;

use crate::future::Poll;

verus! {

/// The outcome of one attempt to accept a connection.
#[derive(Clone, Copy, PartialEq, Eq, Structural)]
pub enum AcceptAttempt {
    /// A connection was accepted.
    Accepted,
    /// No connection is waiting; the attempt would have blocked.
    WouldBlock,
    /// The attempt failed for another reason.
    Failed,
}

/// The answer of the accepting future's poll after `attempt`: an attempt that would
/// block leaves the future pending (it then registers its waker for readiness of the
/// listener); any other outcome, an accepted connection or an error, finishes it.
pub fn accept_poll(attempt: AcceptAttempt) -> (r: Poll<()>)
    ensures
        r is Pending <==> attempt == AcceptAttempt::WouldBlock,
{
    match attempt {
        AcceptAttempt::WouldBlock => Poll::Pending,
        _ => Poll::Ready(()),
    }
}

} // verus!
