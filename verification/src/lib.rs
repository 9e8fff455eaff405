//! Interrupt-driven completion for the timer alarms and the GPIO bank of a
//! dual-core microcontroller, as decisions over plain values.

use vstd::prelude::*;

pub mod completion;
pub mod counter;
pub mod delay;
pub mod digital;
pub mod lifecycle;
pub mod time_driver;
pub mod timer;
pub mod waker;

use crate::digital::NUM_PINS;
use crate::time_driver::{DriverView, TimerDriver};
use crate::timer::ALARM_COUNT;
use crate::waker::WakerRegistry;

verus! {

/// Number of processor cores that can take an interrupt.
pub const NUM_CORES: usize = 2;

/// What lives as long as the process: the slots of the tasks that wait, and
/// the alarm pool of the time driver.
pub struct Shared<C> {
    /// Slots of the tasks that wait for a pin of the GPIO bank.
    pub pin_wakers: WakerRegistry<NUM_PINS>,
    /// Slots of the tasks that wait for an alarm of the timer of the delays.
    pub alarm_wakers: WakerRegistry<ALARM_COUNT>,
    /// Clock and alarm pool on the timer of the time driver.
    pub driver: TimerDriver<C>,
}

/// The process-wide state as it is before any task runs: nobody waits, no
/// alarm handle is issued, no alarm is set and none has a callback.
pub fn init<C: Copy>() -> (shared: Shared<C>)
    ensures
        forall|core: int, pin: int|
            WakerRegistry::<NUM_PINS>::has(core, pin) ==> shared.pin_wakers.waiting(core, pin)
                is None,
        forall|core: int, channel: int|
            WakerRegistry::<ALARM_COUNT>::has(core, channel) ==> shared.alarm_wakers.waiting(
                core,
                channel,
            ) is None,
        shared.driver@ == DriverView::<C>::fresh(),
{
    Shared {
        pin_wakers: WakerRegistry::new(),
        alarm_wakers: WakerRegistry::new(),
        driver: TimerDriver::new(),
    }
}

/// Turns a configured peripheral into the object that hands out its waits.
pub trait IntoAsync {
    /// The awaitable form of the peripheral.
    type Target;

    /// The awaitable form of this peripheral.
    fn into_async(self) -> Self::Target;
}

/// The content of a register after `bits` went to its atomic-set alias.
pub fn write_bitmask_set(register: u32, bits: u32) -> (after: u32)
    ensures
        after == register | bits,
{
    register | bits
}

/// The content of a register after `bits` went to its atomic-clear alias.
pub fn write_bitmask_clear(register: u32, bits: u32) -> (after: u32)
    ensures
        after == register & !bits,
{
    register & !bits
}

} // verus!
