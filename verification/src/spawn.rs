//! Executors that futures can be handed to.
use vstd::prelude::*;
use std::rc::Rc;
use std::sync::Arc;

use crate::future::{Future, LocalFutureObj};

verus! {

/// Why an executor refused a future.
pub struct SpawnError {
    _priv: (),
}

/// An executor that takes futures and runs them to completion.
///
/// The future is handed over in a state in which it may be polled.
pub trait Spawn {
    /// Hands `future` to the executor.
    fn spawn_obj(&self, future: LocalFutureObj<'static, ()>) -> (r: Result<(), SpawnError>)
        requires
            future.pollable(),
    ;

    /// Whether the executor takes futures at present; by default it always does.
    fn status(&self) -> (r: Result<(), SpawnError>)
        default_ensures
            r is Ok,
    {
        Ok(())
    }
}

impl<Sp: ?Sized + Spawn> Spawn for Box<Sp> {
    /// Hands the future to the executor behind the pointer, and gives its answer.
    fn spawn_obj(&self, future: LocalFutureObj<'static, ()>) -> (r: Result<(), SpawnError>)
        ensures
            call_ensures(Sp::spawn_obj, (&**self, future), r),
    {
        (**self).spawn_obj(future)
    }

    /// The status of the executor behind the pointer.
    fn status(&self) -> (r: Result<(), SpawnError>)
        ensures
            call_ensures(Sp::status, (&**self,), r),
    {
        (**self).status()
    }
}

impl<Sp: ?Sized + Spawn> Spawn for Rc<Sp> {
    /// Hands the future to the executor behind the pointer, and gives its answer.
    fn spawn_obj(&self, future: LocalFutureObj<'static, ()>) -> (r: Result<(), SpawnError>)
        ensures
            call_ensures(Sp::spawn_obj, (&**self, future), r),
    {
        (**self).spawn_obj(future)
    }

    /// The status of the executor behind the pointer.
    fn status(&self) -> (r: Result<(), SpawnError>)
        ensures
            call_ensures(Sp::status, (&**self,), r),
    {
        (**self).status()
    }
}

impl<Sp: ?Sized + Spawn> Spawn for Arc<Sp> {
    /// Hands the future to the executor behind the pointer, and gives its answer.
    fn spawn_obj(&self, future: LocalFutureObj<'static, ()>) -> (r: Result<(), SpawnError>)
        ensures
            call_ensures(Sp::spawn_obj, (&**self, future), r),
    {
        (**self).spawn_obj(future)
    }

    /// The status of the executor behind the pointer.
    fn status(&self) -> (r: Result<(), SpawnError>)
        ensures
            call_ensures(Sp::status, (&**self,), r),
    {
        (**self).status()
    }
}

} // verus!
