//! What holds of the interrupt-enable bits and of the wake-ups over the life
//! of a wait.
//!
//! The model is one wait together with the enable register that its writes
//! go to and the slot that holds its waker. Three things happen to it: its
//! task polls it, its interrupt fires (which the handler answers by clearing
//! the enable bits of the source and waking whoever waits in the slot), and
//! it is dropped. Nobody else waits for the resource on the same core.

use crate::completion::{Gate, State, Wait};
use vstd::prelude::*;

verus! {

/// What can happen to a wait.
pub enum Event {
    /// The task polls; `met` says whether the condition was found met.
    Poll { met: bool },
    /// The interrupt of the wait's resource is raised.
    Interrupt,
    /// The wait is dropped.
    Drop,
}

/// A wait, the interrupt-enable register of its resource and its slot.
pub struct Line {
    /// The wait.
    pub wait: Wait,
    /// Content of the enable register.
    pub enable: u32,
    /// Whether the handler has served the interrupt since the wait armed it.
    pub served: bool,
    /// Whether a waker waits in the slot of the resource.
    pub waiting: bool,
    /// How often the handler has woken a task from the slot.
    pub woken: nat,
}

impl Line {
    /// What the wait writes to the enable register on `event`.
    pub open spec fn gate(self, event: Event) -> Gate {
        match event {
            Event::Poll { met } => self.wait.step(met).gate,
            Event::Interrupt => Gate::Keep,
            Event::Drop => self.wait.drop_gate(),
        }
    }

    /// The line after `event`. The handler runs only while one of the
    /// wait's bits is enabled, and clears the bits `quiesce`.
    pub open spec fn next(self, event: Event, quiesce: u32) -> Line {
        match event {
            Event::Poll { met } => Line {
                wait: self.wait.poll(met),
                enable: self.gate(event).apply(self.enable),
                served: self.served && self.wait.state != State::Fresh,
                waiting: self.waiting || self.wait.step(met).register,
                woken: self.woken,
            },
            Event::Interrupt => if self.enable & self.wait.bits != 0 {
                Line {
                    wait: self.wait,
                    enable: self.enable & !quiesce,
                    served: true,
                    waiting: false,
                    woken: if self.waiting {
                        self.woken + 1
                    } else {
                        self.woken
                    },
                }
            } else {
                self
            },
            Event::Drop => Line {
                wait: self.wait.drop(),
                enable: self.gate(event).apply(self.enable),
                served: self.served,
                waiting: self.waiting,
                woken: self.woken,
            },
        }
    }

    /// The line after `events`, in their order.
    pub open spec fn run(self, events: Seq<Event>, quiesce: u32) -> Line
        decreases events.len(),
    {
        if events.len() == 0 {
            self
        } else {
            self.run(events.drop_last(), quiesce).next(events.last(), quiesce)
        }
    }

    /// How often the wait enabled its bits during `events`.
    pub open spec fn arms(self, events: Seq<Event>, quiesce: u32) -> nat
        decreases events.len(),
    {
        if events.len() == 0 {
            0
        } else {
            let before = self.run(events.drop_last(), quiesce);
            self.arms(events.drop_last(), quiesce) + (if before.gate(events.last()) is Arm {
                1nat
            } else {
                0nat
            })
        }
    }

    /// How often the wait cleared its bits during `events`.
    pub open spec fn disarms(self, events: Seq<Event>, quiesce: u32) -> nat
        decreases events.len(),
    {
        if events.len() == 0 {
            0
        } else {
            let before = self.run(events.drop_last(), quiesce);
            self.disarms(events.drop_last(), quiesce) + (if before.gate(events.last()) is Disarm {
                1nat
            } else {
                0nat
            })
        }
    }

    /// The enable bits of the wait are set exactly while it is armed and the
    /// handler has not served its interrupt yet, and all that time its waker
    /// waits in the slot.
    pub open spec fn consistent(self) -> bool {
        if self.wait.state == State::Armed && !self.served {
            self.enable & self.wait.bits == self.wait.bits && self.waiting
        } else {
            self.enable & self.wait.bits == 0
        }
    }

    /// 1 while a wake-up of the wait's task can still come, else 0.
    pub open spec fn wakeable(self) -> nat {
        if self.wait.state == State::Fresh || (self.wait.state == State::Armed && !self.served) {
            1
        } else {
            0
        }
    }

    /// 1 while the wait owes the register a disarming write, else 0.
    pub open spec fn owed(self) -> nat {
        if self.wait.state == State::Armed {
            1
        } else {
            0
        }
    }
}

proof fn lemma_bits(enable: u32, bits: u32, quiesce: u32)
    ensures
        (enable | bits) & bits == bits,
        (enable & !bits) & bits == 0,
        (enable | bits) & !bits == enable & !bits,
        (enable & !bits) & !bits == enable & !bits,
        quiesce & bits == bits ==> (enable & !quiesce) & bits == 0,
        (enable & !quiesce) & !(bits | quiesce) == enable & !(bits | quiesce),
        (enable | bits) & !(bits | quiesce) == enable & !(bits | quiesce),
        (enable & !bits) & !(bits | quiesce) == enable & !(bits | quiesce),
{
    assert((enable | bits) & bits == bits) by (bit_vector);
    assert((enable & !bits) & bits == 0) by (bit_vector);
    assert((enable | bits) & !bits == enable & !bits) by (bit_vector);
    assert((enable & !bits) & !bits == enable & !bits) by (bit_vector);
    assert(quiesce & bits == bits ==> (enable & !quiesce) & bits == 0) by (bit_vector);
    assert((enable & !quiesce) & !(bits | quiesce) == enable & !(bits | quiesce)) by (bit_vector);
    assert((enable | bits) & !(bits | quiesce) == enable & !(bits | quiesce)) by (bit_vector);
    assert((enable & !bits) & !(bits | quiesce) == enable & !(bits | quiesce)) by (bit_vector);
}

/// Every event keeps the line consistent: the wait's enable bits are set
/// while it is armed and unserved, and clear while it is fresh or done. What
/// the wait itself writes leaves every other bit of the register alone.
pub proof fn lemma_next_keeps_consistent(line: Line, event: Event, quiesce: u32)
    requires
        line.consistent(),
        quiesce & line.wait.bits == line.wait.bits,
    ensures
        line.next(event, quiesce).consistent(),
        line.next(event, quiesce).wait.bits == line.wait.bits,
        !(event is Interrupt) ==> line.next(event, quiesce).enable & !line.wait.bits
            == line.enable & !line.wait.bits,
        line.next(event, quiesce).enable & !(line.wait.bits | quiesce) == line.enable & !(
        line.wait.bits | quiesce),
{
    let bits = line.wait.bits;
    lemma_bits(line.enable, bits, quiesce);
}

/// Any run keeps the line consistent.
pub proof fn lemma_run_keeps_consistent(line: Line, events: Seq<Event>, quiesce: u32)
    requires
        line.consistent(),
        quiesce & line.wait.bits == line.wait.bits,
    ensures
        line.run(events, quiesce).consistent(),
        line.run(events, quiesce).wait.bits == line.wait.bits,
    decreases events.len(),
{
    if events.len() > 0 {
        lemma_run_keeps_consistent(line, events.drop_last(), quiesce);
        lemma_next_keeps_consistent(
            line.run(events.drop_last(), quiesce),
            events.last(),
            quiesce,
        );
    }
}

/// The enable bits are clear when the life of a wait has ended: whatever
/// polls and interrupts came before, after the drop the wait is done and its
/// bits in the register are clear.
pub proof fn lemma_life_ends_disarmed(line: Line, events: Seq<Event>, quiesce: u32)
    requires
        line.consistent(),
        quiesce & line.wait.bits == line.wait.bits,
    ensures
        line.run(events.push(Event::Drop), quiesce).wait.state == State::Done,
        line.run(events.push(Event::Drop), quiesce).enable & line.wait.bits == 0,
{
    let all = events.push(Event::Drop);
    assert(all.drop_last() =~= events);
    assert(all.last() == Event::Drop);
    lemma_run_keeps_consistent(line, all, quiesce);
}

/// Enabled exactly while armed: as long as the interrupt has not been
/// served, the enable bits of a wait are set while it is armed and clear
/// while it is fresh or done, whatever polls and drops it went through.
pub proof fn lemma_enabled_exactly_while_armed(line: Line, events: Seq<Event>, quiesce: u32)
    requires
        line.consistent(),
        !line.served,
        forall|i: int| 0 <= i < events.len() ==> !(events[i] is Interrupt),
    ensures
        !line.run(events, quiesce).served,
        line.run(events, quiesce).enable & line.wait.bits == (if line.run(
            events,
            quiesce,
        ).wait.state == State::Armed {
            line.wait.bits
        } else {
            0
        }),
    decreases events.len(),
{
    if events.len() > 0 {
        let before = line.run(events.drop_last(), quiesce);
        lemma_enabled_exactly_while_armed(line, events.drop_last(), quiesce);
        lemma_bits(before.enable, before.wait.bits, quiesce);
        assert(!(events.last() is Interrupt));
        assert(before.wait.bits == line.wait.bits) by {
            lemma_wait_keeps_its_bits(line, events.drop_last(), quiesce);
        }
    }
}

proof fn lemma_wait_keeps_its_bits(line: Line, events: Seq<Event>, quiesce: u32)
    ensures
        line.run(events, quiesce).wait.bits == line.wait.bits,
    decreases events.len(),
{
    if events.len() > 0 {
        lemma_wait_keeps_its_bits(line, events.drop_last(), quiesce);
    }
}

/// No wake-up is lost: when the interrupt of an armed wait that was not
/// served yet is raised, the handler wakes the wait's task and leaves the
/// wait's enable bits clear.
pub proof fn lemma_interrupt_wakes_the_waiting_task(line: Line, quiesce: u32)
    requires
        line.consistent(),
        line.wait.state == State::Armed,
        !line.served,
        line.wait.bits != 0,
        quiesce & line.wait.bits == line.wait.bits,
    ensures
        line.next(Event::Interrupt, quiesce).woken == line.woken + 1,
        line.next(Event::Interrupt, quiesce).served,
        line.next(Event::Interrupt, quiesce).enable & line.wait.bits == 0,
        line.next(Event::Interrupt, quiesce).wait == line.wait,
{
    lemma_bits(line.enable, line.wait.bits, quiesce);
}

/// The task of a wait is woken once at most: over any run the handler wakes
/// from the slot once if the wait was armed and not yet served when its
/// interrupt came, and never after the wait was served, completed or dropped.
pub proof fn lemma_woken_at_most_once(line: Line, events: Seq<Event>, quiesce: u32)
    requires
        line.consistent(),
        quiesce & line.wait.bits == line.wait.bits,
    ensures
        line.run(events, quiesce).woken + line.run(events, quiesce).wakeable() <= line.woken
            + line.wakeable(),
        line.run(events, quiesce).woken >= line.woken,
    decreases events.len(),
{
    if events.len() > 0 {
        let before = line.run(events.drop_last(), quiesce);
        lemma_woken_at_most_once(line, events.drop_last(), quiesce);
        lemma_run_keeps_consistent(line, events.drop_last(), quiesce);
        lemma_bits(before.enable, before.wait.bits, quiesce);
    }
}

/// Steps of a wait balance: what it armed before or during a run, it has
/// disarmed during the run or still owes afterwards. A wait arms at most
/// once, and only if it starts fresh.
pub proof fn lemma_arms_and_disarms_balance(line: Line, events: Seq<Event>, quiesce: u32)
    ensures
        line.owed() + line.arms(events, quiesce) == line.disarms(events, quiesce) + line.run(
            events,
            quiesce,
        ).owed(),
        line.arms(events, quiesce) <= 1,
        line.arms(events, quiesce) == 1 ==> line.wait.state == State::Fresh && line.run(
            events,
            quiesce,
        ).wait.state != State::Fresh,
        line.wait.state != State::Fresh ==> line.run(events, quiesce).wait.state
            != State::Fresh,
    decreases events.len(),
{
    if events.len() > 0 {
        lemma_arms_and_disarms_balance(line, events.drop_last(), quiesce);
    }
}

/// Disarmed exactly once: over a whole life, from the first poll to the drop,
/// a wait that armed its interrupt condition disarmed it exactly once, by
/// completing or by being dropped, never by both; a wait that never armed
/// never disarmed.
pub proof fn lemma_disarmed_exactly_once(line: Line, events: Seq<Event>, quiesce: u32)
    requires
        line.wait.state == State::Fresh,
    ensures
        line.disarms(events.push(Event::Drop), quiesce) == line.arms(
            events.push(Event::Drop),
            quiesce,
        ),
        line.arms(events.push(Event::Drop), quiesce) <= 1,
{
    let all = events.push(Event::Drop);
    assert(all.drop_last() =~= events);
    assert(all.last() == Event::Drop);
    lemma_arms_and_disarms_balance(line, all, quiesce);
}

/// Polling a wait that has completed changes nothing: it is told "ready"
/// again, and neither writes to the register nor registers a waker.
pub proof fn lemma_poll_after_ready(wait: Wait, met: bool, again: bool)
    requires
        wait.step(met).poll is Ready,
    ensures
        wait.poll(met).state == State::Done,
        wait.poll(met).step(again).poll is Ready,
        wait.poll(met).step(again).gate == Gate::Keep,
        !wait.poll(met).step(again).register,
        wait.poll(met).step(again).repeated,
        wait.poll(met).poll(again) == wait.poll(met),
{
}

} // verus!
