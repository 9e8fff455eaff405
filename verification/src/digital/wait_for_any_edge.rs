//! Waiting for any edge of a pin.

use crate::completion::{Completion, Gate, State, Step, Wait};
use crate::digital::{event_bits, AsyncInputPin, Interrupt, Pin, NUM_PINS};
use crate::waker::WakerRegistry;
use crate::NUM_CORES;
use core::marker::PhantomData;
use core::task::Waker;
use vstd::prelude::*;

verus! {

/// The bits of the two edge conditions among the four of a pin.
pub open spec fn both_edges() -> u32 {
    Interrupt::EdgeLow.mask() | Interrupt::EdgeHigh.mask()
}

/// A wait for the next edge of a pin, falling or rising: both edge
/// conditions are armed and disarmed together. It borrows the pin for as long
/// as it lives, so one pin has one wait at a time.
pub struct WaitForAnyEdge<'a> {
    pin: Pin,
    wait: Completion,
    borrowed: PhantomData<&'a mut AsyncInputPin>,
}

impl<'a> View for WaitForAnyEdge<'a> {
    type V = Wait;

    closed spec fn view(&self) -> Wait {
        self.wait@
    }
}

impl<'a> WaitForAnyEdge<'a> {
    /// The pin that is waited for.
    pub closed spec fn pin(&self) -> Pin {
        self.pin
    }

    /// A wait for any edge on `pin` that was never polled.
    pub(crate) fn new(pin: Pin) -> (wait: WaitForAnyEdge<'a>)
        ensures
            wait@ == (Wait { bits: event_bits(pin.number(), both_edges()), state: State::Fresh }),
            wait.pin() == pin,
    {
        let edges = Interrupt::EdgeLow.mask() | Interrupt::EdgeHigh.mask();
        WaitForAnyEdge { pin, wait: Completion::new(pin.bits(edges)), borrowed: PhantomData }
    }

    /// The pin that is waited for.
    pub fn input(&self) -> (pin: Pin)
        ensures
            pin == self.pin(),
    {
        self.pin
    }

    /// Where the wait stands.
    pub fn state(&self) -> (state: State)
        ensures
            state == self@.state,
    {
        self.wait.state()
    }

    /// Polls the wait on `core`, for the task that `waker` wakes. An edge
    /// cannot be found to have happened already, so the first poll always
    /// arms, after it put the waker into the pin's slot.
    pub fn poll(
        &mut self,
        wakers: &mut WakerRegistry<NUM_PINS>,
        core: usize,
        waker: &Waker,
    ) -> (step: Step<()>)
        requires
            core < NUM_CORES,
        ensures
            old(wakers).enlists(
                final(wakers),
                step.register,
                core as int,
                old(self).pin().number(),
                *waker,
            ),
            final(self)@ == old(self)@.poll(false),
            final(self).pin() == old(self).pin(),
            step == old(self)@.step(false),
    {
        let step = self.wait.poll(false);
        wakers.enlist(step.register, core, self.pin.id() as usize, waker);
        step
    }

    /// Ends the wait, as its destruction does: an armed wait disarms.
    pub fn drop(&mut self) -> (gate: Gate)
        ensures
            final(self)@ == old(self)@.drop(),
            final(self).pin() == old(self).pin(),
            gate == old(self)@.drop_gate(),
    {
        self.wait.drop()
    }
}

} // verus!
