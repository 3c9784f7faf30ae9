use std::collections::HashMap;
use std::sync::Mutex;

use how_not_to_async::future::{Future, LocalFutureObj, Poll, Ready};
use how_not_to_async::net::io_service::{dispatches_events, WaitOutcome, WakerRegistry};
use how_not_to_async::net::socket::{accept_poll, AcceptAttempt};
use how_not_to_async::say_twice::{Fstate, SayTwiceFuture};
use how_not_to_async::spawn::{Spawn, SpawnError};
use how_not_to_async::task::{Context, RawWaker, RawWakerOps, RawWakerVTable, Waker};
use how_not_to_async::thread_pool::{Message, Task, TaskRun};

struct WakeLog;

static WOKEN: Mutex<Option<HashMap<usize, usize>>> = Mutex::new(None);

fn woken(data: usize) -> usize {
    let g = WOKEN.lock().unwrap();
    g.as_ref().and_then(|m| m.get(&data).copied()).unwrap_or(0)
}

impl RawWakerOps for WakeLog {
    fn cloned(&self, data: usize, copy: usize) -> bool {
        copy == data
    }

    fn clone_raw(&self, data: usize) -> usize {
        data
    }
    fn wake(&self, data: usize) {
        let mut g = WOKEN.lock().unwrap();
        *g.get_or_insert_with(HashMap::new).entry(data).or_insert(0) += 1;
    }
    fn wake_by_ref(&self, data: usize) {
        self.wake(data)
    }
}

static LOG: WakeLog = WakeLog;

fn waker(data: usize) -> Waker {
    Waker::from_raw(RawWaker::new(data, RawWakerVTable::new(3, &LOG)))
}

#[test]
fn ready_future_gives_its_value_once() {
    let w = waker(1);
    let mut ctx = Context::from_waker(&w);
    let mut f = Ready(Some(5u8));
    assert!(matches!(f.poll(&mut ctx), Poll::Ready(5)));
    assert!(f.0.is_none());
}

#[test]
fn say_twice_finishes_after_both_futures() {
    let w = waker(2);
    let mut ctx = Context::from_waker(&w);
    let mut f = SayTwiceFuture::new(Ready(Some(())), Ready(Some(())));
    assert!(f.state() == Fstate::Start);
    assert!(f.poll(&mut ctx).is_pending());
    assert!(f.state() == Fstate::F1Done);
    assert!(f.poll(&mut ctx).is_pending());
    assert!(f.state() == Fstate::F2Done);
    assert!(f.poll(&mut ctx).is_ready());
    assert!(f.poll(&mut ctx).is_ready());
    assert!(f.state() == Fstate::F2Done);
}

/// Pending once, then ready.
struct OnceMore(bool);

impl Future for OnceMore {
    type Output = ();
    fn pollable(&self) -> bool {
        true
    }

    fn may_answer(&self, _r: Poll<()>) -> bool {
        true
    }
    fn poll(&mut self, _ctx: &mut Context<'_>) -> Poll<()> {
        if self.0 {
            Poll::Ready(())
        } else {
            self.0 = true;
            Poll::Pending
        }
    }
}

#[test]
fn say_twice_waits_for_a_pending_first_future() {
    let w = waker(3);
    let mut ctx = Context::from_waker(&w);
    let mut f = SayTwiceFuture::new(OnceMore(false), OnceMore(false));
    assert!(f.poll(&mut ctx).is_pending());
    assert!(f.state() == Fstate::Start);
    assert!(f.poll(&mut ctx).is_pending());
    assert!(f.state() == Fstate::F1Done);
    assert!(f.poll(&mut ctx).is_pending());
    assert!(f.state() == Fstate::F1Done);
    assert!(f.poll(&mut ctx).is_pending());
    assert!(f.state() == Fstate::F2Done);
    assert!(f.poll(&mut ctx).is_ready());
}

#[test]
fn local_future_obj_polls_the_erased_future() {
    let w = waker(4);
    let mut ctx = Context::from_waker(&w);
    let mut obj = LocalFutureObj::<'static, u32>::new(Box::new(Ready(Some(9u32))));
    assert!(matches!(obj.poll(&mut ctx), Poll::Ready(9)));
}

#[test]
fn task_run_completes_or_parks() {
    let w = waker(5);
    let mut ctx = Context::from_waker(&w);
    let task = Task::new(LocalFutureObj::new(OnceMore(false)), 77u32);
    assert_eq!(*task.handle(), 77);
    let parked = match task.run(&mut ctx) {
        TaskRun::Parked(t) => t,
        TaskRun::Completed(_) => panic!("the first poll is pending"),
    };
    assert_eq!(*parked.handle(), 77);
    match parked.run(&mut ctx) {
        TaskRun::Completed(h) => assert_eq!(h, 77),
        TaskRun::Parked(_) => panic!("the second poll is ready"),
    }
}

#[test]
fn messages_carry_tasks_or_close() {
    let m: Message<u8> = Message::Run(Task::new(LocalFutureObj::new(Ready(Some(()))), 1u8));
    assert!(matches!(m, Message::Run(_)));
    let c: Message<u8> = Message::Close;
    assert!(matches!(c, Message::Close));
}

#[test]
fn registry_hands_out_increasing_tokens_and_wakes_by_token() {
    let mut reg = WakerRegistry::new();
    assert!(!reg.contains(0));
    let t0 = reg.register(&waker(10));
    let t1 = reg.register(&waker(11));
    let t2 = reg.register(&waker(12));
    assert_eq!((t0, t1, t2), (0, 1, 2));
    assert!(reg.contains(0) && reg.contains(1) && reg.contains(2));
    assert!(!reg.contains(3));
    assert!(reg.wake(1));
    assert_eq!(woken(11), 1);
    assert_eq!(woken(10), 0);
    // the slot was emptied by the wake; the token stays registered
    assert!(reg.wake(1));
    assert_eq!(woken(11), 1);
    assert!(reg.contains(1));
    // an unknown token wakes nothing
    assert!(!reg.wake(9));
    assert_eq!(reg.register(&waker(13)), 3);
}

#[test]
fn accept_poll_waits_only_when_it_would_block() {
    assert!(accept_poll(AcceptAttempt::WouldBlock).is_pending());
    assert!(accept_poll(AcceptAttempt::Accepted).is_ready());
    assert!(accept_poll(AcceptAttempt::Failed).is_ready());
}

struct Recorder(Mutex<usize>);

impl Spawn for Recorder {
    fn spawn_obj(&self, _future: LocalFutureObj<'static, ()>) -> Result<(), SpawnError> {
        *self.0.lock().unwrap() += 1;
        Ok(())
    }
}

#[test]
fn spawn_forwards_through_pointers_and_status_defaults_to_ok() {
    let r = std::sync::Arc::new(Recorder(Mutex::new(0)));
    assert!(r.spawn_obj(LocalFutureObj::new(Ready(Some(())))).is_ok());
    let b = Box::new(Recorder(Mutex::new(0)));
    assert!(b.spawn_obj(LocalFutureObj::new(Ready(Some(())))).is_ok());
    assert_eq!(*b.0.lock().unwrap(), 1);
    assert_eq!(*r.0.lock().unwrap(), 1);
    assert!(r.status().is_ok());
    assert!(std::rc::Rc::new(Recorder(Mutex::new(0))).status().is_ok());
}

#[test]
fn an_interrupted_wait_is_retried_without_dispatch() {
    assert!(!dispatches_events(WaitOutcome::Interrupted));
    assert!(dispatches_events(WaitOutcome::Events));
    assert!(dispatches_events(WaitOutcome::Failed));
}
