//! Waiting for one edge of a pin.

use crate::completion::{Completion, Gate, State, Step, Wait};
use crate::digital::{event_bits, AsyncInputPin, Interrupt, Pin, NUM_PINS};
use crate::waker::WakerRegistry;
use crate::NUM_CORES;
use core::marker::PhantomData;
use core::task::Waker;
use vstd::prelude::*;

verus! {

/// An edge of a pin.
#[derive(Clone, Copy, Debug, PartialEq, Eq, Structural)]
pub enum Edge {
    Falling,
    Rising,
}

impl Edge {
    /// The interrupt condition that the edge raises.
    pub open spec fn spec_interrupt(self) -> Interrupt {
        match self {
            Edge::Falling => Interrupt::EdgeLow,
            Edge::Rising => Interrupt::EdgeHigh,
        }
    }

    /// The interrupt condition that the edge raises.
    #[verifier::when_used_as_spec(spec_interrupt)]
    pub fn interrupt(self) -> (interrupt: Interrupt)
        ensures
            interrupt == self.spec_interrupt(),
    {
        match self {
            Edge::Falling => Interrupt::EdgeLow,
            Edge::Rising => Interrupt::EdgeHigh,
        }
    }
}

/// A wait for one edge of a pin. It borrows the pin for as long as it lives,
/// so one pin has one wait at a time.
pub struct WaitForEdge<'a> {
    pin: Pin,
    edge: Edge,
    wait: Completion,
    borrowed: PhantomData<&'a mut AsyncInputPin>,
}

impl<'a> View for WaitForEdge<'a> {
    type V = Wait;

    closed spec fn view(&self) -> Wait {
        self.wait@
    }
}

impl<'a> WaitForEdge<'a> {
    /// The pin that is waited for.
    pub closed spec fn pin(&self) -> Pin {
        self.pin
    }

    /// The edge that is waited for.
    pub closed spec fn edge(&self) -> Edge {
        self.edge
    }

    /// A wait for `edge` on `pin` that was never polled.
    pub(crate) fn new(pin: Pin, edge: Edge) -> (wait: WaitForEdge<'a>)
        ensures
            wait@ == (Wait {
                bits: event_bits(pin.number(), edge.interrupt().mask()),
                state: State::Fresh,
            }),
            wait.pin() == pin,
            wait.edge() == edge,
    {
        WaitForEdge {
            pin,
            edge,
            wait: Completion::new(pin.bits(edge.interrupt().mask())),
            borrowed: PhantomData,
        }
    }

    /// The pin that is waited for.
    pub fn input(&self) -> (pin: Pin)
        ensures
            pin == self.pin(),
    {
        self.pin
    }

    /// The interrupt condition that the wait arms.
    pub fn interrupt(&self) -> (interrupt: Interrupt)
        ensures
            interrupt == self.edge().interrupt(),
    {
        self.edge.interrupt()
    }

    /// Where the wait stands.
    pub fn state(&self) -> (state: State)
        ensures
            state == self@.state,
    {
        self.wait.state()
    }

    /// Polls the wait on `core`, for the task that `waker` wakes. An edge
    /// cannot be found to have happened already, so the first poll always
    /// arms, after it put the waker into the pin's slot.
    pub fn poll(
        &mut self,
        wakers: &mut WakerRegistry<NUM_PINS>,
        core: usize,
        waker: &Waker,
    ) -> (step: Step<()>)
        requires
            core < NUM_CORES,
        ensures
            old(wakers).enlists(
                final(wakers),
                step.register,
                core as int,
                old(self).pin().number(),
                *waker,
            ),
            final(self)@ == old(self)@.poll(false),
            final(self).pin() == old(self).pin(),
            final(self).edge() == old(self).edge(),
            step == old(self)@.step(false),
    {
        let step = self.wait.poll(false);
        wakers.enlist(step.register, core, self.pin.id() as usize, waker);
        step
    }

    /// Ends the wait, as its destruction does: an armed wait disarms.
    pub fn drop(&mut self) -> (gate: Gate)
        ensures
            final(self)@ == old(self)@.drop(),
            final(self).pin() == old(self).pin(),
            final(self).edge() == old(self).edge(),
            gate == old(self)@.drop_gate(),
    {
        self.wait.drop()
    }
}

} // verus!
