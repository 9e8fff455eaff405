//! The waker registry: one slot for each resource on each core, holding the
//! waker of the task that waits for the resource's interrupt there.
//!
//! A slot holds one waiter at most and the last one registered wins. A
//! woken waiter has left its slot: who waits on, registers again. Two waits
//! on one resource from one core at the same time have no place here: the
//! second registration drops the waker of the first.

use crate::NUM_CORES;
use core::task::Waker;
use vstd::prelude::*;

verus! {

#[verifier::external_type_specification]
#[verifier::external_body]
pub struct ExWaker(Waker);

/// `Waker::wake`: tells the scheduler that the waker's task may run again.
/// What the scheduler makes of it is not stated.
#[verifier::external_body]
fn notify(waker: Waker) {
    waker.wake()
}

/// `Waker::clone`: the copy stands for the same task as the waker that it
/// was made from.
#[verifier::external_body]
fn duplicate(waker: &Waker) -> (copy: Waker)
    ensures
        copy == *waker,
{
    waker.clone()
}

/// A slot in which nobody waits.
fn vacant(resource: usize) -> (slot: Option<Waker>)
    ensures
        slot is None,
{
    None
}

/// `core::array::from_fn` with `vacant`: the array whose element at each
/// index is what `vacant` gives for it, so a slot in which nobody waits.
#[verifier::external_body]
fn vacant_slots<const N: usize>() -> (slots: [Option<Waker>; N])
    ensures
        forall|resource: int| 0 <= resource < N ==> slots[resource] is None,
{
    core::array::from_fn(vacant)
}

/// The slots of `N` resources on each core.
pub struct WakerRegistry<const N: usize> {
    slots: [[Option<Waker>; N]; NUM_CORES],
}

impl<const N: usize> WakerRegistry<N> {
    /// Whether `core` and `resource` name a slot.
    pub open spec fn has(core: int, resource: int) -> bool {
        0 <= core < NUM_CORES && 0 <= resource < N
    }

    /// The waker that waits for `resource` on `core`.
    pub closed spec fn waiting(&self, core: int, resource: int) -> Option<Waker> {
        self.slots[core][resource]
    }

    /// A registry in which nobody waits.
    pub fn new() -> (registry: Self)
        ensures
            forall|core: int, resource: int|
                Self::has(core, resource) ==> registry.waiting(core, resource) is None,
    {
        WakerRegistry { slots: [vacant_slots(), vacant_slots()] }
    }

    /// Whether `after` is this registry but for the slot of `resource` on
    /// `core`, which holds `slot`.
    pub open spec fn differs_at(
        &self,
        after: &Self,
        core: int,
        resource: int,
        slot: Option<Waker>,
    ) -> bool {
        forall|c: int, r: int|
            Self::has(c, r) ==> #[trigger] after.waiting(c, r) == (if c == core && r == resource {
                slot
            } else {
                self.waiting(c, r)
            })
    }

    /// Whether `after` has in every slot what this registry has there.
    pub open spec fn same_as(&self, after: &Self) -> bool {
        forall|c: int, r: int|
            Self::has(c, r) ==> #[trigger] after.waiting(c, r) == self.waiting(c, r)
    }

    /// Whether `after` is what a poll on `core` leaves of this registry: with
    /// `waker` waiting for `resource` where the poll registered, unchanged
    /// where it did not.
    pub open spec fn enlists(
        &self,
        after: &Self,
        register: bool,
        core: int,
        resource: int,
        waker: Waker,
    ) -> bool {
        if register {
            self.differs_at(after, core, resource, Some(waker))
        } else {
            self.same_as(after)
        }
    }

    /// Puts a copy of `waker` into the slot of `resource` on `core`, in place
    /// of what was there.
    pub fn register(&mut self, core: usize, resource: usize, waker: &Waker)
        requires
            core < NUM_CORES,
            resource < N,
        ensures
            old(self).differs_at(final(self), core as int, resource as int, Some(*waker)),
    {
        self.slots[core][resource] = Some(duplicate(waker));
    }

    /// Registers `waker` for `resource` on `core` where a poll asks for it.
    pub(crate) fn enlist(&mut self, register: bool, core: usize, resource: usize, waker: &Waker)
        requires
            core < NUM_CORES,
            resource < N,
        ensures
            old(self).enlists(final(self), register, core as int, resource as int, *waker),
    {
        if register {
            self.register(core, resource, waker);
        }
    }

    /// Wakes the task that waits for `resource` on `core`, if there is one,
    /// and empties the slot. Says whether somebody was woken.
    pub fn wake(&mut self, core: usize, resource: usize) -> (woken: bool)
        requires
            core < NUM_CORES,
            resource < N,
        ensures
            woken == old(self).waiting(core as int, resource as int).is_some(),
            old(self).differs_at(final(self), core as int, resource as int, None),
    {
        let mut taken: Option<Waker> = None;
        core::mem::swap(&mut taken, &mut self.slots[core][resource]);
        match taken {
            Some(waker) => {
                notify(waker);
                true
            },
            None => false,
        }
    }

    /// Whether somebody waits for `resource` on `core`.
    pub fn is_waiting(&self, core: usize, resource: usize) -> (occupied: bool)
        requires
            core < NUM_CORES,
            resource < N,
        ensures
            occupied == self.waiting(core as int, resource as int).is_some(),
    {
        self.slots[core][resource].is_some()
    }
}

} // verus!
