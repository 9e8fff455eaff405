//! Delays on the alarm channels of a timer.
//!
//! A timer whose alarms serve delays is not the timer of the time driver:
//! both use the same four channels.

use crate::completion::{Completion, Gate, State, Step, Wait};
use crate::timer::{alarm_mask, channel_mask, ALARM_COUNT};
use crate::waker::WakerRegistry;
use crate::{IntoAsync, NUM_CORES};
use core::marker::PhantomData;
use core::task::Waker;
use fugit::{Duration, MicrosDurationU32};
use vstd::prelude::*;

verus! {

#[verifier::external_type_specification]
#[verifier::external_body]
#[verifier::reject_recursive_types(T)]
pub struct ExDuration<T, const NOM: u32, const DENOM: u32>(Duration<T, NOM, DENOM>);

/// The whole microseconds that a duration spans, as `Duration::to_micros`
/// gives them.
pub uninterp spec fn duration_micros(duration: MicrosDurationU32) -> u32;

/// `fugit::Duration::micros` at microsecond resolution: the duration that
/// spans `length` microseconds.
#[verifier::external_body]
fn micros_duration(length: u32) -> (duration: MicrosDurationU32)
    ensures
        duration_micros(duration) == length,
{
    MicrosDurationU32::micros(length)
}

/// The microseconds that a delay of `nanos` nanoseconds takes, rounded up.
pub open spec fn micros_for(nanos: u32) -> u32 {
    ((nanos + 999) / 1000) as u32
}

/// One alarm channel of a timer.
#[derive(Clone, Copy, Debug)]
pub struct Alarm {
    channel: u8,
}

impl Alarm {
    #[verifier::type_invariant]
    spec fn in_timer(self) -> bool {
        self.channel < ALARM_COUNT
    }

    /// The alarm's channel.
    pub closed spec fn number(self) -> int {
        self.channel as int
    }

    /// The alarm of `channel`, if the timer has it.
    pub fn new(channel: u8) -> (alarm: Option<Alarm>)
        ensures
            alarm is Some <==> channel < ALARM_COUNT,
            alarm matches Some(a) ==> a.number() == channel,
    {
        if (channel as usize) < ALARM_COUNT {
            Some(Alarm { channel })
        } else {
            None
        }
    }

    /// The alarm's channel.
    pub fn channel(&self) -> (channel: u8)
        ensures
            channel == self.number(),
            channel < ALARM_COUNT,
    {
        proof {
            use_type_invariant(self);
        }
        self.channel
    }

    /// The alarm's bit in the timer's interrupt registers.
    pub fn mask(&self) -> (mask: u32)
        ensures
            mask == alarm_mask(self.number()),
    {
        proof {
            use_type_invariant(self);
        }
        channel_mask(self.channel as usize)
    }
}

/// An alarm that delays can be awaited on.
pub struct AsyncAlarm {
    alarm: Alarm,
}

impl AsyncAlarm {
    /// The alarm.
    pub closed spec fn alarm(&self) -> Alarm {
        self.alarm
    }

    /// The awaitable form of `alarm`.
    pub fn new(alarm: Alarm) -> (delay: AsyncAlarm)
        ensures
            delay.alarm() == alarm,
    {
        AsyncAlarm { alarm }
    }

    /// The alarm.
    pub fn channel(&self) -> (alarm: Alarm)
        ensures
            alarm == self.alarm(),
    {
        self.alarm
    }

    /// A delay of `delay` nanoseconds, counted in microseconds and rounded up.
    /// A delay of no length is over at once: there is nothing to await and
    /// nothing gets armed.
    pub fn delay_ns(&mut self, delay: u32) -> (wait: Option<AsyncAlarmFut<'_>>)
        ensures
            final(self).alarm() == old(self).alarm(),
            wait is Some <==> delay > 0,
            wait matches Some(w) ==> w.alarm() == old(self).alarm() && w.countdown() == micros_for(
                delay,
            ) && w@ == (Wait {
                bits: alarm_mask(old(self).alarm().number()),
                state: State::Fresh,
            }),
    {
        let micros: u32 = delay / 1000 + if delay % 1000 != 0 {
            1
        } else {
            0
        };
        if micros > 0 {
            Some(AsyncAlarmFut::new(self.alarm, micros))
        } else {
            None
        }
    }
}

impl IntoAsync for Alarm {
    type Target = AsyncAlarm;

    fn into_async(self) -> (delay: AsyncAlarm)
        ensures
            delay.alarm() == self,
    {
        AsyncAlarm::new(self)
    }
}

/// A delay on an alarm. It borrows the alarm for as long as it lives, so
/// one alarm has one delay at a time.
pub struct AsyncAlarmFut<'a> {
    alarm: Alarm,
    delay: u32,
    wait: Completion,
    borrowed: PhantomData<&'a mut AsyncAlarm>,
}

impl<'a> View for AsyncAlarmFut<'a> {
    type V = Wait;

    closed spec fn view(&self) -> Wait {
        self.wait@
    }
}

impl<'a> AsyncAlarmFut<'a> {
    /// The alarm that counts the delay.
    pub closed spec fn alarm(&self) -> Alarm {
        self.alarm
    }

    /// Length of the delay in microseconds.
    pub closed spec fn countdown(&self) -> u32 {
        self.delay
    }

    /// A delay of `micros` microseconds on `alarm` that was never polled.
    pub(crate) fn new(alarm: Alarm, micros: u32) -> (wait: AsyncAlarmFut<'a>)
        ensures
            wait@ == (Wait { bits: alarm_mask(alarm.number()), state: State::Fresh }),
            wait.alarm() == alarm,
            wait.countdown() == micros,
    {
        AsyncAlarmFut {
            alarm,
            delay: micros,
            wait: Completion::new(alarm.mask()),
            borrowed: PhantomData,
        }
    }

    /// The alarm that counts the delay.
    pub fn channel(&self) -> (alarm: Alarm)
        ensures
            alarm == self.alarm(),
    {
        self.alarm
    }

    /// Length of the delay in microseconds.
    pub fn micros(&self) -> (micros: u32)
        ensures
            micros == self.countdown(),
    {
        self.delay
    }

    /// Length of the delay as the alarm takes it: the countdown to schedule
    /// on the alarm before the write of the step that arms.
    pub fn duration(&self) -> (duration: MicrosDurationU32)
        ensures
            duration_micros(duration) == self.countdown(),
    {
        micros_duration(self.delay)
    }

    /// Where the delay stands.
    pub fn state(&self) -> (state: State)
        ensures
            state == self@.state,
    {
        self.wait.state()
    }

    /// Polls the delay on `core`, for the task that `waker` wakes. Time
    /// cannot be found to have passed already, so the first poll always arms,
    /// after it put the waker into the alarm's slot.
    pub fn poll(
        &mut self,
        wakers: &mut WakerRegistry<ALARM_COUNT>,
        core: usize,
        waker: &Waker,
    ) -> (step: Step<()>)
        requires
            core < NUM_CORES,
        ensures
            old(wakers).enlists(
                final(wakers),
                step.register,
                core as int,
                old(self).alarm().number(),
                *waker,
            ),
            final(self)@ == old(self)@.poll(false),
            final(self).alarm() == old(self).alarm(),
            final(self).countdown() == old(self).countdown(),
            step == old(self)@.step(false),
    {
        let step = self.wait.poll(false);
        wakers.enlist(step.register, core, self.alarm.channel() as usize, waker);
        step
    }

    /// Ends the delay, as its destruction does: an armed delay disarms.
    pub fn drop(&mut self) -> (gate: Gate)
        ensures
            final(self)@ == old(self)@.drop(),
            final(self).alarm() == old(self).alarm(),
            final(self).countdown() == old(self).countdown(),
            gate == old(self)@.drop_gate(),
    {
        self.wait.drop()
    }
}

/// What the interrupt handler of an alarm has to write.
#[derive(Clone, Copy, Debug, PartialEq, Eq, Structural)]
pub struct AlarmIrq {
    /// Bits for the atomic-clear alias of the timer's interrupt-enable register.
    pub disable: u32,
    /// Bits to write to the timer's raw interrupt register, which clears them.
    pub acknowledge: u32,
}

/// What the interrupt handler of alarm `channel` writes when it runs on `core`.
pub open spec fn alarm_service(core: int, channel: int) -> AlarmIrq {
    if core < NUM_CORES {
        AlarmIrq { disable: alarm_mask(channel), acknowledge: alarm_mask(channel) }
    } else {
        AlarmIrq { disable: 0, acknowledge: 0 }
    }
}

/// Interrupt handler of `alarm` on `core`. The task that waits for the
/// alarm on this core is woken, the alarm's interrupt is disabled and its
/// pending bit acknowledged, whether somebody waited or not. Nothing is done
/// for a core that the part does not have.
pub fn alarm_irq(wakers: &mut WakerRegistry<ALARM_COUNT>, core: usize, alarm: Alarm) -> (service:
    AlarmIrq)
    ensures
        service == alarm_service(core as int, alarm.number()),
        forall|c: int, channel: int|
            WakerRegistry::<ALARM_COUNT>::has(c, channel) ==> #[trigger] final(wakers).waiting(
                c,
                channel,
            ) == (if c == core && channel == alarm.number() {
                None
            } else {
                old(wakers).waiting(c, channel)
            }),
{
    if core >= NUM_CORES {
        return AlarmIrq { disable: 0, acknowledge: 0 };
    }
    let mask = alarm.mask();
    let _ = wakers.wake(core, alarm.channel() as usize);
    AlarmIrq { disable: mask, acknowledge: mask }
}

} // verus!
