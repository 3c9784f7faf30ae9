//! The table from the tokens of registered event sources to the wakers of their tasks,
//! and what the event loop does with the outcome of one wait for events.
use vstd::prelude::*;
use std::collections::HashMap;

use crate::task::{woken, Waker, WakerSlot};

verus! {

broadcast use vstd::std_specs::hash::group_hash_axioms;

/// The tokens handed out so far and, for each, the waker slot of the task that waits
/// on the source registered under it. Tokens are handed out in increasing order,
/// wrapping around after the largest `usize`.
///
/// The registry is used by one caller at a time (the event loop keeps it behind a
/// lock), so each slot is used directly.
pub struct WakerRegistry {
    token: usize,
    waker_map: HashMap<usize, WakerSlot>,
}

impl WakerRegistry {
    /// The next token to hand out.
    pub closed spec fn spec_next_token(&self) -> usize {
        self.token
    }

    /// For each registered token, the waker its slot holds, if any.
    pub closed spec fn spec_slots(&self) -> Map<usize, Option<Waker>> {
        self.waker_map@.map_values(|s: WakerSlot| s@)
    }

    /// The tokens under which a slot is registered.
    pub open spec fn spec_tokens(&self) -> Set<usize> {
        self.spec_slots().dom()
    }

    /// Every registered token is below the next token to hand out: true from the start
    /// until the tokens wrap around.
    pub open spec fn tokens_below_next(&self) -> bool {
        forall|t: usize| self.spec_tokens().contains(t) ==> t < self.spec_next_token()
    }

    /// The registered tokens are exactly those below the next token, `0..next`: true
    /// from the start until the tokens wrap around.
    pub open spec fn tokens_are_prefix(&self) -> bool {
        forall|t: usize| self.spec_tokens().contains(t) <==> t < self.spec_next_token()
    }

    /// An empty registry, whose first token is 0.
    pub fn new() -> (r: Self)
        ensures
            r.spec_next_token() == 0,
            r.spec_slots() == Map::<usize, Option<Waker>>::empty(),
            r.tokens_below_next(),
            r.tokens_are_prefix(),
    {
        let r = WakerRegistry { token: 0, waker_map: HashMap::new() };
        assert(r.spec_slots() =~= Map::<usize, Option<Waker>>::empty());
        r
    }

    /// Registers, under a new token, a slot that holds a clone of `waker` made by its
    /// table, and returns the token.
    pub fn register(&mut self, waker: &Waker) -> (token: usize)
        ensures
            token == old(self).spec_next_token(),
            final(self).spec_next_token() == (if token == usize::MAX {
                0
            } else {
                token + 1
            }),
            final(self).spec_slots().dom() == old(self).spec_slots().dom().insert(token),
            final(self).spec_slots()[token] is Some,
            final(self).spec_slots()[token]->0.is_clone_of(waker),
            forall|t: usize|
                t != token && old(self).spec_slots().contains_key(t) ==> final(self).spec_slots()[t]
                    == old(self).spec_slots()[t],
            old(self).tokens_below_next() && token < usize::MAX ==> !old(
                self,
            ).spec_tokens().contains(token) && final(self).tokens_below_next(),
            old(self).tokens_are_prefix() && token < usize::MAX ==> final(self).tokens_are_prefix(),
    {
        let mut slot = WakerSlot::new();
        slot.register(waker);
        let token = self.token;
        self.token = if token == usize::MAX {
            0
        } else {
            token + 1
        };
        self.waker_map.insert(token, slot);
        proof {
            assert(self.spec_slots() =~= old(self).spec_slots().insert(token, slot@));
            assert(self.spec_tokens() =~= old(self).spec_tokens().insert(token));
        }
        token
    }

    /// Whether a slot is registered under `token`.
    pub fn contains(&self, token: usize) -> (r: bool)
        ensures
            r == self.spec_tokens().contains(token),
    {
        self.waker_map.contains_key(&token)
    }

    /// Wakes the waker held under `token`, taking it out of its slot; answers whether a
    /// slot is registered under `token` (when none is, nothing changes). Whether a waker
    /// was woken is whether the slot held one.
    pub fn wake(&mut self, token: usize) -> (registered: bool)
        ensures
            registry_woke(*old(self), token, *final(self), registered),
    {
        match self.waker_map.remove(&token) {
            Some(slot) => {
                let mut slot = slot;
                let _ = slot.wake();
                self.waker_map.insert(token, slot);
                proof {
                    assert(self.spec_slots() =~= old(self).spec_slots().insert(token, None));
                }
                true
            },
            None => {
                proof {
                    assert(self.waker_map@ =~= old(self).waker_map@);
                }
                false
            },
        }
    }
}

/// What `WakerRegistry::wake` does for `token`, from `before` to `after`, answering
/// `registered`: a registered token's slot has its waker, if any, woken and ends empty;
/// every other slot and the next token are unchanged; an unknown token changes nothing.
pub open spec fn registry_woke(
    before: WakerRegistry,
    token: usize,
    after: WakerRegistry,
    registered: bool,
) -> bool {
    &&& registered == before.spec_tokens().contains(token)
    &&& after.spec_next_token() == before.spec_next_token()
    &&& registered ==> {
        &&& after.spec_slots() == before.spec_slots().insert(token, None)
        &&& before.spec_slots()[token] matches Some(w) ==> woken(w)
    }
    &&& !registered ==> after.spec_slots() == before.spec_slots()
}

/// Waking a registered token wakes the waker its slot holds, for every token: the
/// event loop's wake of a ready source reaches the task waiting on it, and leaves the
/// other tasks' wakers in place.
pub proof fn waking_a_token_wakes_its_waker(
    before: WakerRegistry,
    token: usize,
    after: WakerRegistry,
    registered: bool,
)
    requires
        registry_woke(before, token, after, registered),
    ensures
        before.spec_slots().contains_key(token) ==> registered,
        before.spec_slots().contains_key(token) && before.spec_slots()[token] is Some ==> woken(
            before.spec_slots()[token]->0,
        ),
        registered ==> after.spec_slots()[token] is None,
        forall|t: usize|
            t != token && before.spec_slots().contains_key(t) ==> after.spec_slots().contains_key(t)
                && after.spec_slots()[t] == before.spec_slots()[t],
{
}

/// The first token handed out next is not registered yet, as long as the registered
/// tokens are `0..next`; so each call of `register` from a new registry hands out a
/// token that no earlier call did, until the tokens wrap around.
pub proof fn next_token_is_fresh(reg: &WakerRegistry)
    requires
        reg.tokens_are_prefix(),
    ensures
        !reg.spec_tokens().contains(reg.spec_next_token()),
        forall|t: usize| t < reg.spec_next_token() ==> reg.spec_tokens().contains(t),
{
}

/// The outcome of one wait of the event loop for readiness events.
#[derive(Clone, Copy, PartialEq, Eq, Structural)]
pub enum WaitOutcome {
    /// The wait returned its events.
    Events,
    /// The wait was interrupted by a signal.
    Interrupted,
    /// The wait failed for another reason.
    Failed,
}

/// Whether the event loop goes on to wake the tasks of the events after `outcome`: an
/// interrupted wait is retried at once; after any other outcome, a failure included,
/// the events are handled.
pub fn dispatches_events(outcome: WaitOutcome) -> (r: bool)
    ensures
        r == (outcome != WaitOutcome::Interrupted),
{
    match outcome {
        WaitOutcome::Interrupted => false,
        _ => true,
    }
}

} // verus!
