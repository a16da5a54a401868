//! Click callbacks: each is stored under a number and delivered at most once.

use vstd::prelude::*;
use std::sync::Arc;
use ahash::AHashMap;
use crate::error::RenderError;
use crate::tables::{callback_entries, callbacks_insert, callbacks_new, callbacks_remove};

verus! {

/// What a button does when it is clicked.
///
/// The host may report the click on any thread, so a handler must be safe to
/// share and to call from there.
pub trait ClickHandler: Send + Sync {
    fn on_click(&self);
}

/// A shareable click handler, as it is given to a button.
pub struct Callback {
    pub handler: Arc<dyn ClickHandler>,
}

impl Callback {
    /// Runs the handler.
    pub fn fire(&self) {
        self.handler.on_click()
    }
}

/// The callbacks that wait for their click.
///
/// Each registered callback gets the next free number. It stays pending until
/// the click with that number is delivered, and is dropped from the registry
/// by that delivery.
pub struct CallbackRegistry {
    next_id: u32,
    callbacks: AHashMap<u32, Callback>,
}

impl CallbackRegistry {
    #[verifier::type_invariant]
    spec fn inv(self) -> bool {
        forall|k: u32| callback_entries(self.callbacks).contains_key(k) ==> k < self.next_id
    }

    /// The callbacks that have not been delivered yet, each under its
    /// number.
    pub closed spec fn pending(&self) -> Map<u32, Callback> {
        callback_entries(self.callbacks)
    }

    /// How many callbacks have been registered so far.
    pub closed spec fn issued(&self) -> nat {
        self.next_id as nat
    }

    /// A registry with nothing pending; the first callback gets number 0.
    pub fn new() -> (registry: CallbackRegistry)
        ensures
            registry.pending() == Map::<u32, Callback>::empty(),
            registry.issued() == 0,
    {
        CallbackRegistry { next_id: 0, callbacks: callbacks_new() }
    }

    /// Whether every callback number has been handed out.
    pub fn is_full(&self) -> (full: bool)
        ensures
            full == (self.issued() >= u32::MAX),
    {
        self.next_id == u32::MAX
    }

    /// The number that the next registered callback will get. No pending
    /// callback has that number or a higher one.
    pub fn next_id(&self) -> (id: u32)
        ensures
            id == self.issued(),
            forall|k: u32| self.pending().contains_key(k) ==> k < id,
    {
        proof {
            use_type_invariant(self);
        }
        self.next_id
    }

    /// Stores a callback under the next free number and returns that number.
    ///
    /// The number is fresh: no pending callback had it. Fails with
    /// `Exhausted`, and changes nothing, exactly when all numbers are in use.
    pub fn register(&mut self, callback: Callback) -> (r: Result<u32, RenderError>)
        ensures
            !old(self).pending().contains_key(old(self).issued() as u32),
            old(self).issued() < u32::MAX ==> r == Ok::<u32, RenderError>(old(self).issued() as u32)
                && final(self).issued() == old(self).issued() + 1
                && final(self).pending() == old(self).pending().insert(old(self).issued() as u32, callback),
            old(self).issued() >= u32::MAX ==> r == Err::<u32, RenderError>(RenderError::Exhausted)
                && final(self).issued() == old(self).issued()
                && final(self).pending() == old(self).pending(),
    {
        proof {
            use_type_invariant(&*self);
        }
        if self.next_id == u32::MAX {
            return Err(RenderError::Exhausted);
        }
        let id: u32 = self.next_id;
        self.next_id = id + 1;
        let _previous = callbacks_insert(&mut self.callbacks, id, callback);
        Ok(id)
    }

    /// The callback that waits under the number `id`, if one does.
    pub open spec fn waiting(pending: Map<u32, Callback>, id: u32) -> Option<Callback> {
        if pending.contains_key(id) {
            Some(pending[id])
        } else {
            None
        }
    }

    /// Takes a pending callback out of the registry.
    ///
    /// Returns the callback registered under the number if it was pending;
    /// either way the number is not pending afterwards.
    pub fn take(&mut self, id: u32) -> (taken: Option<Callback>)
        ensures
            taken == Self::waiting(old(self).pending(), id),
            final(self).pending() == old(self).pending().remove(id),
            final(self).issued() == old(self).issued(),
    {
        proof {
            use_type_invariant(&*self);
        }
        callbacks_remove(&mut self.callbacks, id)
    }

    /// Delivers the click with the given number: takes the callback out as
    /// `take` does and fires it, or does nothing if none is pending under
    /// the number. Returns whether a callback ran; if one did, it is the
    /// one that was pending under the number.
    ///
    /// A delivered callback is no longer pending, so a second delivery under
    /// the same number runs nothing.
    pub fn handle_callback(&mut self, id: u32) -> (ran: bool)
        ensures
            ran == old(self).pending().contains_key(id),
            ran ==> call_ensures(Callback::fire, (&old(self).pending()[id],), ()),
            final(self).pending() == old(self).pending().remove(id),
            final(self).issued() == old(self).issued(),
    {
        match self.take(id) {
            Some(callback) => {
                callback.fire();
                true
            },
            None => false,
        }
    }
}

} // verus!
