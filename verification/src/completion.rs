//! The shape that every wait on an interrupt shares.
//!
//! A wait is polled by its task. The first poll either finds the condition
//! met or arms the interrupt condition and leaves the task suspended; the
//! poll after the wake-up disarms and completes. A wait that is dropped while
//! armed disarms on the way out. The wait touches no register: each step
//! answers with the write that its caller has to perform.
//!
//! The waits on pins and alarms are this shape with a choice of enable bits
//! and of the condition that the first poll tests.

use crate::{write_bitmask_clear, write_bitmask_set};
use vstd::prelude::*;

verus! {

/// Where a wait stands.
#[derive(Clone, Copy, Debug, PartialEq, Eq, Structural)]
pub enum State {
    /// Never polled.
    Fresh,
    /// Polled once, interrupt condition enabled, task suspended.
    Armed,
    /// Completed or dropped.
    Done,
}

/// What a poll tells the scheduler.
#[derive(Debug, PartialEq, Eq)]
pub enum Poll<T> {
    /// The wait is over, with this result.
    Ready(T),
    /// The task stays suspended until its waker is called.
    Pending,
}

/// A write to the interrupt-enable register of the resource.
#[derive(Clone, Copy, Debug, PartialEq, Eq, Structural)]
pub enum Gate {
    /// Nothing to write.
    Keep,
    /// Write the bits to the register's atomic-set alias.
    Arm(u32),
    /// Write the bits to the register's atomic-clear alias.
    Disarm(u32),
}

impl Gate {
    /// The register's content after the write.
    pub open spec fn apply(self, enable: u32) -> u32 {
        match self {
            Gate::Keep => enable,
            Gate::Arm(bits) => enable | bits,
            Gate::Disarm(bits) => enable & !bits,
        }
    }

    /// The register's content after the write.
    pub fn write(self, enable: u32) -> (after: u32)
        ensures
            after == self.apply(enable),
    {
        match self {
            Gate::Keep => enable,
            Gate::Arm(bits) => write_bitmask_set(enable, bits),
            Gate::Disarm(bits) => write_bitmask_clear(enable, bits),
        }
    }
}

/// The outcome of one poll of a wait. The task's waker goes into the slot of
/// the resource first, then the write is performed, then the scheduler gets
/// its answer.
#[derive(Debug, PartialEq, Eq)]
pub struct Step<T> {
    /// What the scheduler is told.
    pub poll: Poll<T>,
    /// Whether the task's waker belongs into the slot of the resource. The
    /// waits on pins and alarms have put it there when they say so.
    pub register: bool,
    /// The write to the interrupt-enable register that the caller performs.
    pub gate: Gate,
    /// Whether the wait was polled though it had completed before, against
    /// the rules of polling. Such a poll is answered "ready" again.
    pub repeated: bool,
}

/// A wait as a value: the enable bits of its interrupt condition, and where
/// it stands.
pub struct Wait {
    pub bits: u32,
    pub state: State,
}

impl Wait {
    /// The wait after a poll. `met` says whether the condition was found
    /// met without waiting; it counts on the first poll only.
    pub open spec fn poll(self, met: bool) -> Wait {
        Wait {
            bits: self.bits,
            state: match self.state {
                State::Fresh => if met {
                    State::Done
                } else {
                    State::Armed
                },
                State::Armed => State::Done,
                State::Done => State::Done,
            },
        }
    }

    /// What a poll asks of the caller.
    pub open spec fn step(self, met: bool) -> Step<()> {
        match self.state {
            State::Fresh => if met {
                Step { poll: Poll::Ready(()), register: false, gate: Gate::Keep, repeated: false }
            } else {
                Step {
                    poll: Poll::Pending,
                    register: true,
                    gate: Gate::Arm(self.bits),
                    repeated: false,
                }
            },
            State::Armed => Step {
                poll: Poll::Ready(()),
                register: false,
                gate: Gate::Disarm(self.bits),
                repeated: false,
            },
            State::Done => Step {
                poll: Poll::Ready(()),
                register: false,
                gate: Gate::Keep,
                repeated: true,
            },
        }
    }

    /// The wait after it was dropped.
    pub open spec fn drop(self) -> Wait {
        Wait { bits: self.bits, state: State::Done }
    }

    /// The write that dropping the wait asks for.
    pub open spec fn drop_gate(self) -> Gate {
        match self.state {
            State::Armed => Gate::Disarm(self.bits),
            _ => Gate::Keep,
        }
    }
}

/// The state of one wait.
pub struct Completion {
    bits: u32,
    state: State,
}

impl View for Completion {
    type V = Wait;

    closed spec fn view(&self) -> Wait {
        Wait { bits: self.bits, state: self.state }
    }
}

impl Completion {
    /// A wait that was never polled, for the interrupt condition with the
    /// enable bits `bits`.
    pub fn new(bits: u32) -> (wait: Completion)
        ensures
            wait@ == (Wait { bits, state: State::Fresh }),
    {
        Completion { bits, state: State::Fresh }
    }

    /// The enable bits of the interrupt condition.
    pub fn bits(&self) -> (bits: u32)
        ensures
            bits == self@.bits,
    {
        self.bits
    }

    /// Where the wait stands.
    pub fn state(&self) -> (state: State)
        ensures
            state == self@.state,
    {
        self.state
    }

    /// Polls the wait. `met` says whether the condition was found met
    /// without waiting; it counts on the first poll only.
    pub fn poll(&mut self, met: bool) -> (step: Step<()>)
        ensures
            final(self)@ == old(self)@.poll(met),
            step == old(self)@.step(met),
    {
        match self.state {
            State::Fresh => {
                if met {
                    self.state = State::Done;
                    Step {
                        poll: Poll::Ready(()),
                        register: false,
                        gate: Gate::Keep,
                        repeated: false,
                    }
                } else {
                    self.state = State::Armed;
                    Step {
                        poll: Poll::Pending,
                        register: true,
                        gate: Gate::Arm(self.bits),
                        repeated: false,
                    }
                }
            },
            State::Armed => {
                self.state = State::Done;
                Step {
                    poll: Poll::Ready(()),
                    register: false,
                    gate: Gate::Disarm(self.bits),
                    repeated: false,
                }
            },
            State::Done => Step {
                poll: Poll::Ready(()),
                register: false,
                gate: Gate::Keep,
                repeated: true,
            },
        }
    }

    /// Ends the wait, as its destruction does: an armed wait disarms, any
    /// other has nothing to undo. The wait is done afterwards.
    pub fn drop(&mut self) -> (gate: Gate)
        ensures
            final(self)@ == old(self)@.drop(),
            gate == old(self)@.drop_gate(),
    {
        let gate = match self.state {
            State::Armed => Gate::Disarm(self.bits),
            _ => Gate::Keep,
        };
        self.state = State::Done;
        gate
    }
}

} // verus!
