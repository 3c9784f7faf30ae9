use std::collections::HashMap;
use std::sync::Mutex;

use how_not_to_async::future::{Future, Poll};
use how_not_to_async::task::{
    next_slot, register_path, release_must_wake, take_acquires, Context, RawWaker,
    RawWakerOps, RawWakerVTable, RegisterPath, Waker, WakerSlot, REGISTERING, WAITING, WAKING,
};

/// Counts, per task handle, the wakes, the wakes by reference and the clones.
struct CountingOps;

static COUNTS: Mutex<Option<HashMap<usize, (usize, usize, usize)>>> = Mutex::new(None);

fn bump(data: usize, which: usize) {
    let mut guard = COUNTS.lock().unwrap();
    let map = guard.get_or_insert_with(HashMap::new);
    let e = map.entry(data).or_insert((0, 0, 0));
    match which {
        0 => e.0 += 1,
        1 => e.1 += 1,
        _ => e.2 += 1,
    }
}

fn counts(data: usize) -> (usize, usize, usize) {
    let guard = COUNTS.lock().unwrap();
    guard.as_ref().and_then(|m| m.get(&data).copied()).unwrap_or((0, 0, 0))
}

impl RawWakerOps for CountingOps {
    fn cloned(&self, data: usize, copy: usize) -> bool {
        copy == data
    }

    fn clone_raw(&self, data: usize) -> usize {
        bump(data, 2);
        data
    }
    fn wake(&self, data: usize) {
        bump(data, 0);
    }
    fn wake_by_ref(&self, data: usize) {
        bump(data, 1);
    }
}

static OPS: CountingOps = CountingOps;

fn waker(data: usize, table: usize) -> Waker {
    Waker::from_raw(RawWaker::new(data, RawWakerVTable::new(table, &OPS)))
}

#[test]
fn raw_waker_keeps_its_parts() {
    let raw = RawWaker::new(41, RawWakerVTable::new(9, &OPS));
    assert_eq!(raw.data(), 41);
    assert_eq!(raw.vtable().id(), 9);
    assert!(raw == RawWaker::new(41, RawWakerVTable::new(9, &OPS)));
    assert!(raw != RawWaker::new(42, RawWakerVTable::new(9, &OPS)));
    assert!(raw != RawWaker::new(41, RawWakerVTable::new(8, &OPS)));
}

#[test]
fn will_wake_compares_task_and_table() {
    let a = waker(100, 1);
    assert!(a.will_wake(&waker(100, 1)));
    assert!(!a.will_wake(&waker(101, 1)));
    assert!(!a.will_wake(&waker(100, 2)));
}

#[test]
fn context_carries_its_waker() {
    let w = waker(110, 1);
    let ctx = Context::from_waker(&w);
    assert!(ctx.waker().will_wake(&w));
    assert!(std::ptr::eq(ctx.waker(), &w));
}

#[test]
fn waker_calls_the_table() {
    let w = waker(120, 1);
    w.wake_by_ref();
    assert_eq!(counts(120), (0, 1, 0));
    let c = w.clone();
    assert_eq!(counts(120), (0, 1, 1));
    assert!(c.will_wake(&w));
    w.wake();
    assert_eq!(counts(120), (1, 1, 1));
}

#[test]
fn register_then_wake_wakes_once() {
    let mut slot = WakerSlot::new();
    slot.register(&waker(130, 1));
    // storing a fresh waker clones it
    assert_eq!(counts(130), (0, 0, 1));
    assert!(slot.wake());
    assert_eq!(counts(130), (1, 0, 1));
    // the slot is empty now
    assert!(!slot.wake());
    assert_eq!(counts(130), (1, 0, 1));
}

#[test]
fn wake_of_empty_slot_does_nothing() {
    let mut slot = WakerSlot::default();
    assert!(!slot.wake());
    assert!(slot.take().is_none());
}

#[test]
fn registering_the_same_task_does_not_clone_again() {
    let mut slot = WakerSlot::new();
    slot.register(&waker(140, 1));
    slot.register(&waker(140, 1));
    assert_eq!(counts(140), (0, 0, 1));
    slot.register(&waker(141, 1));
    assert_eq!(counts(141), (0, 0, 1));
    let taken = slot.take().unwrap();
    assert!(taken.will_wake(&waker(141, 1)));
    assert!(slot.take().is_none());
}

#[test]
fn register_path_follows_the_state_word() {
    assert!(matches!(register_path(WAITING), RegisterPath::Store));
    assert!(matches!(register_path(WAKING), RegisterPath::WakeAtOnce));
    assert!(matches!(register_path(REGISTERING), RegisterPath::Skip));
    assert!(matches!(register_path(REGISTERING | WAKING), RegisterPath::Skip));
}

#[test]
fn release_and_take_decisions() {
    assert!(!release_must_wake(Ok(REGISTERING)));
    assert!(release_must_wake(Err(REGISTERING | WAKING)));
    assert!(take_acquires(WAITING));
    assert!(!take_acquires(REGISTERING));
    assert!(!take_acquires(WAKING));
    assert!(!take_acquires(REGISTERING | WAKING));
}

#[test]
fn next_slot_keeps_a_waker_of_the_same_task() {
    let kept = next_slot(Some(waker(150, 1)), &waker(150, 1)).unwrap();
    assert!(kept.will_wake(&waker(150, 1)));
    assert_eq!(counts(150), (0, 0, 0));
    let replaced = next_slot(Some(waker(151, 1)), &waker(152, 1)).unwrap();
    assert!(replaced.will_wake(&waker(152, 1)));
    assert_eq!(counts(152), (0, 0, 1));
    let filled = next_slot(None, &waker(153, 1)).unwrap();
    assert!(filled.will_wake(&waker(153, 1)));
    assert_eq!(counts(153), (0, 0, 1));
}

/// A future that is pending a given number of times, waking itself each time.
pub struct Countdown(pub u32);

impl Future for Countdown {
    type Output = u32;
    fn pollable(&self) -> bool {
        true
    }

    fn may_answer(&self, _r: Poll<u32>) -> bool {
        true
    }
    fn poll(&mut self, ctx: &mut Context<'_>) -> Poll<u32> {
        if self.0 == 0 {
            Poll::Ready(7)
        } else {
            self.0 -= 1;
            ctx.waker().wake_by_ref();
            Poll::Pending
        }
    }
}

#[test]
fn a_future_can_wake_its_task_through_the_context() {
    let w = waker(160, 1);
    let mut ctx = Context::from_waker(&w);
    let mut f = Countdown(1);
    assert!(f.poll(&mut ctx).is_pending());
    assert_eq!(counts(160), (0, 1, 0));
    assert!(matches!(f.poll(&mut ctx), Poll::Ready(7)));
}
