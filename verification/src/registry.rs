//! The boundary callback registry and the handle lifecycle manager.
//!
//! User closures are moved into an arena of slots. Each slot carries a
//! generation counter, and the token handed back for a registration — the
//! opaque handle that travels through the native side as user data — pairs
//! the slot index with the generation the slot had at registration time.
//! Freeing or replacing a registration bumps the generation, so a stale
//! handle can never be mistaken for the current one: invoking it reports a
//! miss instead of reaching memory the registration no longer owns.
//!
//! Slots are never removed from the arena. By default a registration lives
//! for the rest of the process (the count of registrations is bounded by the
//! number of controls a human builds); a binding that knows its widget was
//! destroyed frees the slot explicitly.

use vstd::prelude::*;

verus! {

/// An address-sized token that indirectly identifies one registered closure:
/// the arena index of its slot, tagged with the generation the slot had when
/// the closure moved in.
#[derive(Clone, Copy, Debug, PartialEq, Eq, Structural)]
pub struct Handle {
    index: usize,
    generation: u64,
}

impl Handle {
    /// The arena index this handle points at.
    pub closed spec fn index_spec(&self) -> int {
        self.index as int
    }

    /// The slot generation this handle was issued for.
    pub closed spec fn generation_spec(&self) -> int {
        self.generation as int
    }
}

struct Slot<T> {
    generation: u64,
    payload: Option<T>,
}

/// Owns every closure registered for a callback, for exactly as long as the
/// native side may still invoke it.
pub struct CallbackRegistry<T> {
    slots: Vec<Slot<T>>,
}

impl<T> CallbackRegistry<T> {
    /// How many slots the arena holds, freed ones included.
    pub closed spec fn slot_count(&self) -> nat {
        self.slots@.len()
    }

    /// Whether `h` is the current handle of an occupied slot.
    pub closed spec fn live(&self, h: Handle) -> bool {
        &&& h.index < self.slots@.len()
        &&& self.slots@[h.index as int].generation == h.generation
        &&& self.slots@[h.index as int].payload is Some
    }

    /// The closure a live handle stands for.
    pub closed spec fn callback(&self, h: Handle) -> T {
        self.slots@[h.index as int].payload.unwrap()
    }

    /// A registry with no registrations.
    pub fn new() -> (r: CallbackRegistry<T>)
        ensures
            r.slot_count() == 0,
            forall|h: Handle| !r.live(h),
    {
        CallbackRegistry { slots: Vec::new() }
    }

    /// Moves a closure into a fresh slot and returns its handle.
    ///
    /// Registration never fails: there is no backpressure to report, and an
    /// allocation failure is fatal to the process rather than recoverable.
    pub fn register(&mut self, callback: T) -> (h: Handle)
        ensures
            final(self).slot_count() == old(self).slot_count() + 1,
            final(self).live(h),
            final(self).callback(h) == callback,
            h.index_spec() == old(self).slot_count(),
            !old(self).live(h),
            forall|h2: Handle| h2 != h ==> final(self).live(h2) == old(self).live(h2),
            forall|h2: Handle|
                old(self).live(h2) ==> final(self).callback(h2) == old(self).callback(h2),
    {
        let h = Handle { index: self.slots.len(), generation: 0 };
        self.slots.push(Slot { generation: 0, payload: Some(callback) });
        h
    }

    /// Whether the registry still holds a closure for `h`.
    pub fn is_live(&self, h: Handle) -> (r: bool)
        ensures
            r == self.live(h),
    {
        h.index < self.slots.len() && self.slots[h.index].generation == h.generation
            && self.slots[h.index].payload.is_some()
    }

    /// The closure behind `h`, or `None` if the handle is stale: a freed or
    /// replaced registration is reported as a miss, never handed out.
    pub fn get(&self, h: Handle) -> (r: Option<&T>)
        ensures
            match r {
                Some(t) => self.live(h) && *t == self.callback(h),
                None => !self.live(h),
            },
    {
        if h.index < self.slots.len() && self.slots[h.index].generation == h.generation {
            self.slots[h.index].payload.as_ref()
        } else {
            None
        }
    }

    /// Ends the registration behind `h`, dropping the closure and everything
    /// it captured. The slot's generation is bumped, so every handle that was
    /// ever issued for the slot is stale afterwards; a stale `h` frees
    /// nothing. Returns whether `h` was live.
    pub fn free(&mut self, h: Handle) -> (was_live: bool)
        ensures
            was_live == old(self).live(h),
            !final(self).live(h),
            final(self).slot_count() == old(self).slot_count(),
            !old(self).live(h) ==> *final(self) == *old(self),
            forall|h2: Handle|
                h2.index_spec() != h.index_spec() ==> final(self).live(h2) == old(self).live(h2),
            forall|h2: Handle|
                h2.index_spec() != h.index_spec() && old(self).live(h2)
                    ==> final(self).callback(h2) == old(self).callback(h2),
            old(self).live(h) ==> forall|h2: Handle|
                h2.index_spec() == h.index_spec() ==> !final(self).live(h2),
    {
        if h.index < self.slots.len() && self.slots[h.index].generation == h.generation
            && self.slots[h.index].payload.is_some() {
            let g = self.slots[h.index].generation;
            let ng = if g < u64::MAX {
                g + 1
            } else {
                g
            };
            self.slots.set(h.index, Slot { generation: ng, payload: None });
            true
        } else {
            false
        }
    }

    /// Replaces the registration behind the live handle `h` with `callback`,
    /// in the same slot under a bumped generation. The returned handle is the
    /// only live way to reach the new closure; `h` and every older handle for
    /// the slot are stale afterwards, so the superseded closure can never
    /// fire again.
    pub fn replace(&mut self, h: Handle, callback: T) -> (h2: Handle)
        requires
            old(self).live(h),
        ensures
            final(self).live(h2),
            final(self).callback(h2) == callback,
            h2 != h,
            !final(self).live(h),
            forall|h3: Handle|
                h3 != h2 && h3.index_spec() == h.index_spec() ==> !final(self).live(h3),
            forall|h3: Handle|
                h3 != h2 && h3.index_spec() != h.index_spec() ==> final(self).live(h3) == old(self).live(h3),
            forall|h3: Handle|
                h3 != h2 && h3.index_spec() != h.index_spec() && old(self).live(h3)
                    ==> final(self).callback(h3) == old(self).callback(h3),
    {
        let g = self.slots[h.index].generation;
        if g < u64::MAX {
            let ng = g + 1;
            self.slots.set(h.index, Slot { generation: ng, payload: Some(callback) });
            Handle { index: h.index, generation: ng }
        } else {
            // The slot's generation space is spent: retire the slot for good
            // and move the new closure into a fresh one.
            self.slots.set(h.index, Slot { generation: g, payload: None });
            let h2 = Handle { index: self.slots.len(), generation: 0 };
            self.slots.push(Slot { generation: 0, payload: Some(callback) });
            h2
        }
    }
}

/// A demand, decided by a control, that the callback behind `handle` run
/// once with `arg`. Controls hand these out when a toolkit-driven event
/// commits; the event loop settles them with [`invoke`] or [`invoke_unit`].
#[derive(Debug)]
pub struct Invocation<A> {
    /// The callback slot to fire.
    pub handle: Handle,
    /// The event argument the callback is owed.
    pub arg: A,
}

/// Invokes the closure behind `handle` exactly once, with exactly the event
/// argument the native side supplied — this is the trampoline's whole job.
/// A stale or unknown handle fires nothing and reports the miss, rather than
/// touching memory whose registration has ended.
///
/// Invocation is reentrancy-safe by construction: the registry and the
/// closure are only ever borrowed shared here, so a callback may itself cause
/// another (or the same) registration to be invoked before it returns.
/// Closures therefore mutate what they capture through interior-mutability
/// disciplines that tolerate reentrance, never through an exclusive borrow.
pub fn invoke<A, F: Fn(A)>(registry: &CallbackRegistry<F>, handle: Handle, arg: A) -> (fired: bool)
    requires
        registry.live(handle) ==> call_requires(registry.callback(handle), (arg,)),
    ensures
        fired == registry.live(handle),
        fired ==> call_ensures(registry.callback(handle), (arg,), ()),
{
    match registry.get(handle) {
        Some(f) => {
            f(arg);
            true
        },
        None => false,
    }
}

/// Invokes the closure behind `handle` exactly once, for events that carry
/// no argument. A stale or unknown handle fires nothing and reports the miss.
pub fn invoke_unit<F: Fn()>(registry: &CallbackRegistry<F>, handle: Handle) -> (fired: bool)
    requires
        registry.live(handle) ==> call_requires(registry.callback(handle), ()),
    ensures
        fired == registry.live(handle),
        fired ==> call_ensures(registry.callback(handle), (), ()),
{
    match registry.get(handle) {
        Some(f) => {
            f();
            true
        },
        None => false,
    }
}

} // verus!
