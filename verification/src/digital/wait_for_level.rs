//! Waiting for a pin to be at a level.

use crate::completion::{Completion, Gate, Poll, State, Step, Wait};
use crate::digital::{event_bits, AsyncInputPin, Interrupt, Pin, NUM_PINS};
use crate::waker::WakerRegistry;
use crate::NUM_CORES;
use core::marker::PhantomData;
use core::task::Waker;
use vstd::prelude::*;

verus! {

/// A level of a pin.
#[derive(Clone, Copy, Debug, PartialEq, Eq, Structural)]
pub enum Level {
    Low,
    High,
}

impl Level {
    /// The interrupt condition that is raised while the pin is at the level.
    pub open spec fn spec_interrupt(self) -> Interrupt {
        match self {
            Level::Low => Interrupt::LevelLow,
            Level::High => Interrupt::LevelHigh,
        }
    }

    /// The interrupt condition that is raised while the pin is at the level.
    #[verifier::when_used_as_spec(spec_interrupt)]
    pub fn interrupt(self) -> (interrupt: Interrupt)
        ensures
            interrupt == self.spec_interrupt(),
    {
        match self {
            Level::Low => Interrupt::LevelLow,
            Level::High => Interrupt::LevelHigh,
        }
    }

    /// Whether a pin that reads `high` is at the level.
    pub open spec fn spec_is_level(self, high: bool) -> bool {
        match self {
            Level::Low => !high,
            Level::High => high,
        }
    }

    /// Whether a pin that reads `high` is at the level.
    #[verifier::when_used_as_spec(spec_is_level)]
    pub fn is_level(self, high: bool) -> (at_level: bool)
        ensures
            at_level == self.spec_is_level(high),
    {
        match self {
            Level::Low => !high,
            Level::High => high,
        }
    }
}

/// Whether the first poll of a wait for `level` has nothing to wait for,
/// `high` being what reading the pin gave: the pin is at the level already,
/// or it could not be read.
pub open spec fn settled<E>(level: Level, high: Result<bool, E>) -> bool {
    match high {
        Ok(high) => level.is_level(high),
        Err(_) => true,
    }
}

/// What a wait for a level completes with: the error of the read where the
/// first poll could not read the pin, success otherwise.
pub open spec fn outcome<E>(wait: Wait, high: Result<bool, E>) -> Result<(), E> {
    match high {
        Err(error) if wait.state == State::Fresh => Err(error),
        _ => Ok(()),
    }
}

/// What a poll of a wait for `level` asks of the caller.
pub open spec fn level_step<E>(wait: Wait, level: Level, high: Result<bool, E>) -> Step<
    Result<(), E>,
> {
    let step = wait.step(settled(level, high));
    Step {
        poll: match step.poll {
            Poll::Ready(_) => Poll::Ready(outcome(wait, high)),
            Poll::Pending => Poll::Pending,
        },
        register: step.register,
        gate: step.gate,
        repeated: step.repeated,
    }
}

/// A wait for a pin to be at a level. It borrows the pin for as long as it
/// lives, so one pin has one wait at a time.
pub struct WaitForLevel<'a> {
    pin: Pin,
    level: Level,
    wait: Completion,
    borrowed: PhantomData<&'a mut AsyncInputPin>,
}

impl<'a> View for WaitForLevel<'a> {
    type V = Wait;

    closed spec fn view(&self) -> Wait {
        self.wait@
    }
}

impl<'a> WaitForLevel<'a> {
    /// The pin that is waited for.
    pub closed spec fn pin(&self) -> Pin {
        self.pin
    }

    /// The level that is waited for.
    pub closed spec fn level(&self) -> Level {
        self.level
    }

    /// A wait for `level` on `pin` that was never polled.
    pub(crate) fn new(pin: Pin, level: Level) -> (wait: WaitForLevel<'a>)
        ensures
            wait@ == (Wait {
                bits: event_bits(pin.number(), level.interrupt().mask()),
                state: State::Fresh,
            }),
            wait.pin() == pin,
            wait.level() == level,
    {
        WaitForLevel {
            pin,
            level,
            wait: Completion::new(pin.bits(level.interrupt().mask())),
            borrowed: PhantomData,
        }
    }

    /// The pin that is waited for.
    pub fn input(&self) -> (pin: Pin)
        ensures
            pin == self.pin(),
    {
        self.pin
    }

    /// The interrupt condition that the wait arms.
    pub fn interrupt(&self) -> (interrupt: Interrupt)
        ensures
            interrupt == self.level().interrupt(),
    {
        self.level.interrupt()
    }

    /// Where the wait stands.
    pub fn state(&self) -> (state: State)
        ensures
            state == self@.state,
    {
        self.wait.state()
    }

    /// Polls the wait on `core`, for the task that `waker` wakes. `high` is
    /// what reading the pin gave; it counts on the first poll only. A pin that
    /// is at the level already completes the wait at once, with no interrupt
    /// enabled and no waker registered; so does a pin that could not be read,
    /// with the error of the read. Else the waker goes into the pin's slot and
    /// the level's interrupt condition is armed.
    pub fn poll<E>(
        &mut self,
        wakers: &mut WakerRegistry<NUM_PINS>,
        core: usize,
        waker: &Waker,
        high: Result<bool, E>,
    ) -> (step: Step<Result<(), E>>)
        requires
            core < NUM_CORES,
        ensures
            old(wakers).enlists(
                final(wakers),
                step.register,
                core as int,
                old(self).pin().number(),
                *waker,
            ),
            final(self)@ == old(self)@.poll(settled(old(self).level(), high)),
            final(self).pin() == old(self).pin(),
            final(self).level() == old(self).level(),
            step == level_step(old(self)@, old(self).level(), high),
    {
        let fresh = match self.wait.state() {
            State::Fresh => true,
            _ => false,
        };
        let (met, outcome): (bool, Result<(), E>) = match high {
            Ok(high) => (self.level.is_level(high), Ok(())),
            Err(error) => (
                true,
                if fresh {
                    Err(error)
                } else {
                    Ok(())
                },
            ),
        };
        let step = self.wait.poll(met);
        wakers.enlist(step.register, core, self.pin.id() as usize, waker);
        Step {
            poll: match step.poll {
                Poll::Ready(_) => Poll::Ready(outcome),
                Poll::Pending => Poll::Pending,
            },
            register: step.register,
            gate: step.gate,
            repeated: step.repeated,
        }
    }

    /// Ends the wait, as its destruction does: an armed wait disarms.
    pub fn drop(&mut self) -> (gate: Gate)
        ensures
            final(self)@ == old(self)@.drop(),
            final(self).pin() == old(self).pin(),
            final(self).level() == old(self).level(),
            gate == old(self)@.drop_gate(),
    {
        self.wait.drop()
    }
}

} // verus!
