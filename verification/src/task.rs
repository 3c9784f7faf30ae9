//! Wakers, the context handed to `poll`, and the slot and protocol of an atomic waker.
//!
//! A [`Waker`] notifies an executor that a task can make progress. Its behaviour
//! comes from a [`RawWakerVTable`] supplied by the executor, applied to the
//! task handle `data` that the [`RawWaker`] carries.
use vstd::prelude::*;
use std::sync::Arc;

verus! {

/// The operations of a waker on the task handle it carries: what an executor
/// supplies so that wakers of its tasks can be cloned and woken.
pub trait RawWakerOps: Send + Sync {
    /// Whether `copy` is a handle that cloning the handle `data` may give: a handle
    /// of the same task, holding its own hold on it.
    spec fn cloned(&self, data: usize, copy: usize) -> bool;

    /// Takes a second hold on the task `data`, and gives the handle that the new
    /// waker is to carry (the same table acts on it).
    fn clone_raw(&self, data: usize) -> (copy: usize)
        ensures
            self.cloned(data, copy),
    ;

    /// Wakes the task `data`, giving up this waker's hold on it.
    fn wake(&self, data: usize);

    /// Wakes the task `data`, keeping this waker's hold on it.
    fn wake_by_ref(&self, data: usize);
}

/// The table of a waker's operations, and the identity of that table.
///
/// Two raw wakers behave alike when they carry the same task handle and tables
/// of the same identity.
#[derive(Clone, Copy)]
pub struct RawWakerVTable {
    id: usize,
    ops: &'static dyn RawWakerOps,
}

impl RawWakerVTable {
    /// The identity of the table.
    pub closed spec fn spec_id(&self) -> usize {
        self.id
    }

    /// Whether `copy` is a handle that the table's `clone_raw` may give for `data`.
    pub closed spec fn spec_cloned(&self, data: usize, copy: usize) -> bool {
        self.ops.cloned(data, copy)
    }

    /// Builds a table of identity `id` whose operations are those of `ops`.
    pub fn new(id: usize, ops: &'static dyn RawWakerOps) -> (r: Self)
        ensures
            r.spec_id() == id,
    {
        RawWakerVTable { id, ops }
    }

    /// The identity of the table.
    pub fn id(&self) -> (r: usize)
        ensures
            r == self.spec_id(),
    {
        self.id
    }
}

/// A task handle together with the table of operations that act on it.
pub struct RawWaker {
    /// The handle of the task, for the executor's use (an address, an index, ...).
    data: usize,
    vtable: RawWakerVTable,
}

impl RawWaker {
    /// The task handle.
    pub closed spec fn spec_data(&self) -> usize {
        self.data
    }

    /// The table of operations.
    pub closed spec fn spec_vtable(&self) -> RawWakerVTable {
        self.vtable
    }

    /// What two equal raw wakers share: the task handle and the table's identity.
    pub open spec fn key(&self) -> (usize, usize) {
        (self.spec_data(), self.spec_vtable().spec_id())
    }

    /// A raw waker for the task `data`, acted on by `vtable`.
    pub fn new(data: usize, vtable: RawWakerVTable) -> (r: RawWaker)
        ensures
            r.spec_data() == data,
            r.spec_vtable() == vtable,
    {
        RawWaker { data, vtable }
    }

    /// The task handle.
    pub fn data(&self) -> (r: usize)
        ensures
            r == self.spec_data(),
    {
        self.data
    }

    /// The table of operations.
    pub fn vtable(&self) -> (r: RawWakerVTable)
        ensures
            r == self.spec_vtable(),
    {
        self.vtable
    }
}

impl PartialEq for RawWaker {
    fn eq(&self, other: &RawWaker) -> (r: bool) {
        self.data == other.data && self.vtable.id == other.vtable.id
    }
}

impl vstd::std_specs::cmp::PartialEqSpecImpl for RawWaker {
    open spec fn obeys_eq_spec() -> bool {
        true
    }

    open spec fn eq_spec(&self, other: &RawWaker) -> bool {
        self.key() == other.key()
    }
}

/// The context passed to [`crate::future::Future::poll`]: the waker of the task being polled.
pub struct Context<'a> {
    waker: &'a Waker,
}

impl<'a> Context<'a> {
    /// The waker that the context carries.
    pub closed spec fn spec_waker(&self) -> &'a Waker {
        self.waker
    }

    /// A context that carries `waker`.
    pub fn from_waker(waker: &'a Waker) -> (r: Self)
        ensures
            r.spec_waker() == waker,
    {
        Context { waker }
    }

    /// The waker of the task being polled.
    pub fn waker(&self) -> (r: &'a Waker)
        ensures
            r == self.spec_waker(),
    {
        self.waker
    }
}

/// A handle that wakes a task: it tells the task's executor that the task can progress.
///
/// Dropping a waker does not call into its table: a table whose wakers hold counted
/// references keeps the count of a waker that is dropped without being woken.
pub struct Waker {
    waker: RawWaker,
}

impl Waker {
    /// The raw waker inside.
    pub closed spec fn spec_raw(&self) -> RawWaker {
        self.waker
    }

    /// What two wakers of the same task share.
    pub open spec fn key(&self) -> (usize, usize) {
        self.spec_raw().key()
    }

    /// Whether `self` is a clone of `other`: it has `other`'s table, and a handle that
    /// the table's `clone_raw` may give for `other`'s handle.
    pub open spec fn is_clone_of(&self, other: &Waker) -> bool {
        &&& self.spec_raw().spec_vtable() == other.spec_raw().spec_vtable()
        &&& other.spec_raw().spec_vtable().spec_cloned(
            other.spec_raw().spec_data(),
            self.spec_raw().spec_data(),
        )
    }

    /// Wakes the task, consuming the waker.
    pub fn wake(self) {
        let vtable = self.waker.vtable;
        let data = self.waker.data;
        vtable.ops.wake(data);
    }

    /// Wakes the task, keeping the waker.
    pub fn wake_by_ref(&self) {
        self.waker.vtable.ops.wake_by_ref(self.waker.data)
    }

    /// The waker whose behaviour is that of `waker`.
    pub fn from_raw(waker: RawWaker) -> (r: Waker)
        ensures
            r.spec_raw() == waker,
    {
        Waker { waker }
    }

    /// Whether `self` and `other` wake the same task: their raw wakers are equal.
    pub fn will_wake(&self, other: &Waker) -> (r: bool)
        ensures
            r == (self.key() == other.key()),
    {
        self.waker == other.waker
    }
}

impl Clone for Waker {
    /// A second waker acted on by the same table, whose handle the table's `clone_raw` gives.
    fn clone(&self) -> (r: Self)
        ensures
            r.is_clone_of(self),
    {
        let data = self.waker.vtable.ops.clone_raw(self.waker.data);
        Waker { waker: RawWaker { data, vtable: self.waker.vtable } }
    }
}

/// The state word of an atomic waker slot when nobody holds the slot.
pub const WAITING: usize = 0;

/// The bit that a registering caller sets while it holds the slot.
pub const REGISTERING: usize = 1;

/// The bit that a waking caller sets; while only it is set, the waking caller holds the slot.
pub const WAKING: usize = 2;

/// Which caller holds the slot of an atomic waker.
///
/// An atomic waker keeps a [`WakerSlot`] shared between callers and a state word that
/// says who may use it. The functions below are the decisions a caller takes on the
/// word it reads; [`step_next`] models each atomic step with those decisions, and
/// [`protocol_step_keeps_inv`] proves that the model keeps word and holder in agreement.
pub enum SlotHolder {
    Nobody,
    Registering,
    Waking,
}

/// The state words that go with each holder: nobody holds the slot exactly when the
/// word is `WAITING`; a registering caller holds it while `REGISTERING` is set (with
/// `WAKING` beside it once a waking caller has come by); a waking caller holds it
/// while the word is `WAKING` alone.
pub open spec fn protocol_inv(state: usize, holder: SlotHolder) -> bool {
    match holder {
        SlotHolder::Nobody => state == WAITING,
        SlotHolder::Registering => state == REGISTERING || state == (REGISTERING | WAKING),
        SlotHolder::Waking => state == WAKING,
    }
}

/// What `register` does, given the state word it found when it tried to take the slot.
pub enum RegisterPath {
    /// It took the slot: store the waker, then release.
    Store,
    /// A waking caller holds the slot: wake the new waker at once.
    WakeAtOnce,
    /// Another registering caller holds the slot: do nothing.
    Skip,
}

/// The path of `register` for the state word `observed` that its first exchange saw.
pub open spec fn spec_register_path(observed: usize) -> RegisterPath {
    if observed == WAITING {
        RegisterPath::Store
    } else if observed == WAKING {
        RegisterPath::WakeAtOnce
    } else {
        RegisterPath::Skip
    }
}

/// Decides the path of `register` from the state word its first exchange saw.
pub fn register_path(observed: usize) -> (r: RegisterPath)
    ensures
        r == spec_register_path(observed),
{
    if observed == WAITING {
        RegisterPath::Store
    } else if observed == WAKING {
        RegisterPath::WakeAtOnce
    } else {
        RegisterPath::Skip
    }
}

/// The content of the slot after `register` stores `waker` into a slot holding
/// `current`: a stored waker that wakes the same task is kept (no clone is made);
/// otherwise the slot gets a clone of `waker`, made by its table.
pub fn next_slot(current: Option<Waker>, waker: &Waker) -> (r: Option<Waker>)
    ensures
        r is Some,
        current matches Some(old) && old.key() == waker.key() ==> r == current,
        !(current matches Some(old) && old.key() == waker.key()) ==> r->0.is_clone_of(waker),
{
    match current {
        Some(old) => if old.will_wake(waker) {
            Some(old)
        } else {
            Some(waker.clone())
        },
        None => Some(waker.clone()),
    }
}

/// Whether `register`, on releasing the slot, must hand the stored waker to a wake itself:
/// the release exchange failed because a waking caller came by meanwhile.
pub open spec fn spec_release_must_wake(unlock: Result<usize, usize>) -> bool {
    unlock is Err
}

/// Decides whether `register` wakes the stored waker itself, from the result of its
/// release exchange.
pub fn release_must_wake(unlock: Result<usize, usize>) -> (r: bool)
    ensures
        r == spec_release_must_wake(unlock),
{
    match unlock {
        Ok(_) => false,
        Err(_) => true,
    }
}

/// Whether `take` holds the slot, given the state word that setting `WAKING` replaced.
pub open spec fn spec_take_acquires(previous: usize) -> bool {
    previous == WAITING
}

/// Decides whether `take` holds the slot, from the state word that setting `WAKING` replaced.
pub fn take_acquires(previous: usize) -> (r: bool)
    ensures
        r == spec_take_acquires(previous),
{
    previous == WAITING
}

/// The one-step effect of each atomic operation of the protocol on the state word and
/// the holder, for a caller that may perform it.
pub enum ProtocolStep {
    /// `register` tries to exchange `WAITING` for `REGISTERING`.
    RegisterLock,
    /// The holding `register` tries to exchange `REGISTERING` for `WAITING`.
    RegisterUnlock,
    /// The holding `register`, whose release failed, stores `WAITING`.
    RegisterReset,
    /// `take` sets the `WAKING` bit.
    TakeMark,
    /// The holding `take` clears the `WAKING` bit.
    TakeRelease,
}

/// Whether the caller making `step` may make it: the releasing steps belong to the holder.
pub open spec fn step_enabled(step: ProtocolStep, state: usize, holder: SlotHolder) -> bool {
    match step {
        ProtocolStep::RegisterLock => true,
        ProtocolStep::RegisterUnlock => holder is Registering,
        ProtocolStep::RegisterReset => holder is Registering && state == (REGISTERING | WAKING),
        ProtocolStep::TakeMark => true,
        ProtocolStep::TakeRelease => holder is Waking,
    }
}

/// The state word and the holder after `step`, by the semantics of the atomic operation
/// and the decision the code takes on the value that the operation returns.
pub open spec fn step_next(step: ProtocolStep, state: usize, holder: SlotHolder) -> (usize, SlotHolder) {
    match step {
        ProtocolStep::RegisterLock => {
            let observed = match exchange_result(state, WAITING) {
                Ok(x) => x,
                Err(x) => x,
            };
            if spec_register_path(observed) is Store {
                (REGISTERING, SlotHolder::Registering)
            } else {
                (state, holder)
            }
        },
        ProtocolStep::RegisterUnlock => if spec_release_must_wake(exchange_result(state, REGISTERING)) {
            (state, holder)
        } else {
            (WAITING, SlotHolder::Nobody)
        },
        ProtocolStep::RegisterReset => (WAITING, SlotHolder::Nobody),
        ProtocolStep::TakeMark => if spec_take_acquires(state) {
            (state | WAKING, SlotHolder::Waking)
        } else {
            (state | WAKING, holder)
        },
        ProtocolStep::TakeRelease => (state & !WAKING, SlotHolder::Nobody),
    }
}

/// What a compare-exchange of `expected` for some new word returns on the word `state`:
/// `Ok` with the old word when it matched, `Err` with the word found otherwise.
pub open spec fn exchange_result(state: usize, expected: usize) -> Result<usize, usize> {
    if state == expected {
        Ok(state)
    } else {
        Err(state)
    }
}

/// Every step of the protocol keeps the state word in agreement with the holder of the
/// slot; so at most one caller holds the slot at any time, and a caller takes it only
/// when nobody holds it.
pub proof fn protocol_step_keeps_inv(step: ProtocolStep, state: usize, holder: SlotHolder)
    requires
        protocol_inv(state, holder),
        step_enabled(step, state, holder),
    ensures
        protocol_inv(step_next(step, state, holder).0, step_next(step, state, holder).1),
        (step is RegisterLock || step is TakeMark) && !(holder is Nobody) ==> step_next(
            step,
            state,
            holder,
        ).1 == holder,
{
    assert((0usize | 2usize) == 2usize) by (bit_vector);
    assert((1usize | 2usize) == 3usize) by (bit_vector);
    assert((2usize | 2usize) == 2usize) by (bit_vector);
    assert((3usize | 2usize) == 3usize) by (bit_vector);
    assert((2usize & !2usize) == 0usize) by (bit_vector);
}

/// A wake is never lost to a concurrent registration: when `take` sets `WAKING` while a
/// registering caller holds the slot, that caller's release fails, and it wakes the
/// stored waker itself.
pub proof fn wake_during_register_is_handed_over(state: usize)
    requires
        protocol_inv(state, SlotHolder::Registering),
    ensures
        step_next(ProtocolStep::TakeMark, state, SlotHolder::Registering).0 == (REGISTERING
            | WAKING),
        step_next(ProtocolStep::TakeMark, state, SlotHolder::Registering).1 is Registering,
        step_next(
            ProtocolStep::RegisterUnlock,
            step_next(ProtocolStep::TakeMark, state, SlotHolder::Registering).0,
            SlotHolder::Registering,
        ).1 is Registering,
{
    assert((1usize | 2usize) == 3usize) by (bit_vector);
    assert((3usize | 2usize) == 3usize) by (bit_vector);
}

/// The state word and the holder after the steps `steps`, made in order from `state`
/// and `holder` (the steps of any callers, interleaved).
pub open spec fn protocol_run(steps: Seq<ProtocolStep>, state: usize, holder: SlotHolder) -> (
    usize,
    SlotHolder,
)
    decreases steps.len(),
{
    if steps.len() == 0 {
        (state, holder)
    } else {
        let before = protocol_run(steps.drop_last(), state, holder);
        step_next(steps.last(), before.0, before.1)
    }
}

/// Whether each of `steps`, made in order from `state` and `holder`, is made by a caller
/// that may make it.
pub open spec fn run_enabled(steps: Seq<ProtocolStep>, state: usize, holder: SlotHolder) -> bool
    decreases steps.len(),
{
    if steps.len() == 0 {
        true
    } else {
        let before = protocol_run(steps.drop_last(), state, holder);
        run_enabled(steps.drop_last(), state, holder) && step_enabled(steps.last(), before.0, before.1)
    }
}

/// From a new atomic waker (word `WAITING`, nobody holding the slot), after any
/// interleaving of the callers' steps, the word agrees with the holder; in particular,
/// once nobody holds the slot (all calls have returned) the word is `WAITING` again, so
/// the next uncontended `register` stores its waker and the next uncontended `take`
/// gets the held one.
pub proof fn protocol_run_keeps_inv(steps: Seq<ProtocolStep>)
    requires
        run_enabled(steps, WAITING, SlotHolder::Nobody),
    ensures
        protocol_inv(
            protocol_run(steps, WAITING, SlotHolder::Nobody).0,
            protocol_run(steps, WAITING, SlotHolder::Nobody).1,
        ),
        protocol_run(steps, WAITING, SlotHolder::Nobody).1 is Nobody ==> protocol_run(
            steps,
            WAITING,
            SlotHolder::Nobody,
        ).0 == WAITING,
    decreases steps.len(),
{
    if steps.len() > 0 {
        protocol_run_keeps_inv(steps.drop_last());
        let before = protocol_run(steps.drop_last(), WAITING, SlotHolder::Nobody);
        protocol_step_keeps_inv(steps.last(), before.0, before.1);
    }
}

/// The words that a caller who finds the slot held can see: the ones that the checks
/// of the protocol expect. A `take` that misses the slot sees `REGISTERING`,
/// `REGISTERING | WAKING` or `WAKING`; a holding `register` whose release fails sees
/// `REGISTERING | WAKING`, and its slot holds the waker it stored.
pub proof fn missed_and_failed_words(state: usize, holder: SlotHolder)
    requires
        protocol_inv(state, holder),
    ensures
        !spec_take_acquires(state) ==> state == REGISTERING || state == (REGISTERING | WAKING)
            || state == WAKING,
        holder is Registering && spec_release_must_wake(exchange_result(state, REGISTERING))
            ==> state == (REGISTERING | WAKING),
{
}

/// No wake-up is lost when callers meet: a `register` that finds a waking caller holding
/// the slot wakes its own waker at once; a `take` that finds a registering caller
/// holding it leaves the wake to that caller, whose release then fails (see
/// [`wake_during_register_is_handed_over`]); a `take` that finds another waking caller
/// holding it leaves that caller holding the slot, with the waker it took to wake.
pub proof fn contention_hands_wakes_over(state: usize, holder: SlotHolder)
    requires
        protocol_inv(state, holder),
    ensures
        holder is Waking ==> spec_register_path(
            match exchange_result(state, WAITING) {
                Ok(x) => x,
                Err(x) => x,
            },
        ) is WakeAtOnce,
        holder is Registering ==> step_next(ProtocolStep::TakeMark, state, holder).1 is Registering
            && spec_release_must_wake(
            exchange_result(step_next(ProtocolStep::TakeMark, state, holder).0, REGISTERING),
        ),
        holder is Waking ==> step_next(ProtocolStep::TakeMark, state, holder) == (state, holder),
{
    assert((1usize | 2usize) == 3usize) by (bit_vector);
    assert((3usize | 2usize) == 3usize) by (bit_vector);
    assert((2usize | 2usize) == 2usize) by (bit_vector);
}

/// Whether the waker `w` has been woken by value: the effect of a call of `w.wake()`.
pub open spec fn woken(w: Waker) -> bool {
    call_ensures(Waker::wake, (w,), ())
}

/// What `WakerSlot::register` does: from a slot holding `before`, for `waker`, to a
/// slot holding `after`, giving back `replaced`. A held waker of the same task is kept
/// and nothing is given back; otherwise the slot holds a clone of `waker` and the held
/// waker, if any, is given back.
pub open spec fn slot_registered(
    before: Option<Waker>,
    waker: &Waker,
    after: Option<Waker>,
    replaced: Option<Waker>,
) -> bool {
    if before matches Some(held) && held.key() == waker.key() {
        after == before && replaced is None
    } else {
        &&& after matches Some(fresh) && fresh.is_clone_of(waker)
        &&& replaced == before
    }
}

/// What `WakerSlot::wake` does: from a slot holding `before` to one holding `after`,
/// answering `woke`. A held waker is woken and taken out; the slot ends empty.
pub open spec fn slot_woken(before: Option<Waker>, after: Option<Waker>, woke: bool) -> bool {
    &&& woke == (before is Some)
    &&& before matches Some(w) ==> woken(w)
    &&& after is None
}

/// Registering into a slot loses no waker and wakes none: every waker held before is
/// still held or given back to the caller (so no call was made on it), the slot ends
/// holding a waker of the registered task, and a fresh waker is only ever a clone made
/// by the registered waker's table.
pub proof fn register_hands_back_what_it_replaces(
    before: Option<Waker>,
    waker: &Waker,
    after: Option<Waker>,
    replaced: Option<Waker>,
)
    requires
        slot_registered(before, waker, after, replaced),
    ensures
        before matches Some(held) ==> after == Some(held) || replaced == Some(held),
        replaced is Some ==> replaced == before,
        after matches Some(w) && (w.key() == waker.key() || w.is_clone_of(waker)),
{
}

/// Waking a slot wakes exactly the waker it held, if any, and empties it.
pub proof fn slot_wake_wakes_the_held_waker(before: Option<Waker>, after: Option<Waker>, woke: bool)
    requires
        slot_woken(before, after, woke),
    ensures
        before matches Some(w) ==> woke && woken(w),
        before is None ==> !woke,
        after is None,
{
}

/// The slot of an atomic waker, as its holder sees it: at most one stored waker.
///
/// The state word that guards the slot between callers is not part of this type; a
/// caller may use the slot while it holds it (see [`protocol_inv`]), and the
/// decisions on the word are [`register_path`], [`release_must_wake`] and
/// [`take_acquires`]. A slot that only one caller at a time can reach (one behind a
/// lock, say) is used directly.
pub struct WakerSlot {
    waker: Option<Waker>,
}

impl View for WakerSlot {
    type V = Option<Waker>;

    /// The stored waker, if any.
    closed spec fn view(&self) -> Option<Waker> {
        self.waker
    }
}

impl WakerSlot {
    /// An empty slot.
    pub fn new() -> (r: Self)
        ensures
            r@ is None,
    {
        WakerSlot { waker: None }
    }

    /// Stores a waker for the task of `waker`: a stored waker that wakes the same task
    /// is kept (no clone is made, `None` is given back); otherwise the slot gets a clone
    /// of `waker`, and the waker it held, if any, is given back untouched (the caller
    /// drops it; it is not woken).
    pub fn register(&mut self, waker: &Waker) -> (replaced: Option<Waker>)
        ensures
            slot_registered(old(self)@, waker, final(self)@, replaced),
    {
        let keep = match &self.waker {
            Some(held) => held.will_wake(waker),
            None => false,
        };
        if keep {
            None
        } else {
            let fresh = waker.clone();
            let held = self.waker.take();
            self.waker = Some(fresh);
            held
        }
    }

    /// Takes the stored waker out, leaving the slot empty.
    pub fn take(&mut self) -> (r: Option<Waker>)
        ensures
            r == old(self)@,
            final(self)@ is None,
    {
        self.waker.take()
    }

    /// Wakes the stored waker, if any, taking it out: the slot ends empty.
    pub fn wake(&mut self) -> (woke: bool)
        ensures
            slot_woken(old(self)@, final(self)@, woke),
    {
        match self.take() {
            Some(waker) => {
                waker.wake();
                true
            },
            None => false,
        }
    }
}

impl Default for WakerSlot {
    fn default() -> (r: Self)
        ensures
            r@ is None,
    {
        Self::new()
    }
}

/// A task kept behind an `Arc` that knows how to wake itself; executors implement it
/// for their task handles and build wakers from it.
pub trait ArcWake: Send + Sync {
    /// Wakes the task, giving up this handle: it wakes the task by reference through the
    /// same `Arc` (which the default does, and nothing more).
    fn wake(self: Arc<Self>)
        ensures
            call_ensures(Self::wake_by_ref, (&self,), ()),
    {
        Self::wake_by_ref(&self)
    }

    /// Wakes the task; executors put it back on their queue of tasks to poll.
    fn wake_by_ref(arc_self: &Arc<Self>);
}

/// Waking an `Arc`-backed task by value has the effect of waking it by reference: a
/// completed `wake` on `arc` has made the task's `wake_by_ref` on the same `arc`.
pub proof fn wake_by_value_wakes_by_ref<T: ArcWake>(arc: Arc<T>)
    requires
        call_ensures(T::wake, (arc,), ()),
    ensures
        call_ensures(T::wake_by_ref, (&arc,), ()),
{
}

} // verus!
