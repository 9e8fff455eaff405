//! The monotonic clock and the four-channel alarm pool that a cooperative
//! scheduler drives.
//!
//! The driver owns no hardware. Each operation takes what was read from the
//! timer and answers with the new pool and the register writes that are due.
//! The timer of the driver serves no delays: both would use the same four
//! alarm channels.

use crate::counter::{counter_value, fetch_update};
use crate::timer::{alarm_mask, channel_mask, low_half, read_clock, ALARM_COUNT};
use portable_atomic::AtomicU8;
use vstd::prelude::*;

verus! {

/// Deadline of an alarm that is not set.
pub const DISARMED: u64 = u64::MAX;

/// One alarm of the pool.
pub struct AlarmState<C> {
    /// Tick at which the alarm is due; `DISARMED` while it is not set.
    pub timestamp: u64,
    /// What to call when the alarm is due.
    pub callback: Option<C>,
}

/// What the interrupt handler of one channel has to do.
pub struct AlarmService<C> {
    /// Bits to write to the timer's armed register, which clears them.
    pub disarm: u32,
    /// Callback to invoke, after `disarm` was written.
    pub callback: Option<C>,
    /// Bits to write to the timer's raw interrupt register, which clears them.
    pub acknowledge: u32,
}

/// What `set_alarm` decided.
#[derive(Clone, Copy)]
pub struct AlarmSet {
    /// Whether the interrupt will fire at or after the deadline.
    pub armed: bool,
    /// Bits to write to the timer's armed register, which clears them.
    pub disarm: u32,
}

/// What setting alarm `n` for `timestamp` answers when the clock, read again,
/// stands at `now`.
pub open spec fn alarm_set(n: int, timestamp: u64, now: u64) -> AlarmSet {
    if timestamp <= now {
        AlarmSet { armed: false, disarm: alarm_mask(n) }
    } else {
        AlarmSet { armed: true, disarm: 0 }
    }
}

/// The pool as a value: how many handles were issued, and the alarms.
pub struct DriverView<C> {
    pub issued: nat,
    pub alarms: Seq<AlarmState<C>>,
}

impl<C> DriverView<C> {
    /// Shape of every pool: four alarms, at most four handles issued.
    pub open spec fn wf(self) -> bool {
        self.issued <= ALARM_COUNT && self.alarms.len() == ALARM_COUNT
    }

    /// The pool at start: nothing issued, every alarm unset and without callback.
    pub open spec fn fresh() -> Self {
        DriverView {
            issued: 0,
            alarms: Seq::new(
                ALARM_COUNT as nat,
                |n: int| AlarmState { timestamp: DISARMED, callback: None },
            ),
        }
    }

    /// The id that the next allocation issues, if one is left.
    pub open spec fn next_id(self) -> Option<int> {
        if self.issued < ALARM_COUNT {
            Some(self.issued as int)
        } else {
            None
        }
    }

    /// The pool after one allocation.
    pub open spec fn allocate(self) -> Self {
        DriverView {
            issued: if self.issued < ALARM_COUNT {
                self.issued + 1
            } else {
                self.issued
            },
            alarms: self.alarms,
        }
    }

    /// The pool after `count` allocations.
    pub open spec fn allocate_many(self, count: nat) -> Self
        decreases count,
    {
        if count == 0 {
            self
        } else {
            self.allocate_many((count - 1) as nat).allocate()
        }
    }

    /// The pool after alarm `n` got `callback`.
    pub open spec fn with_callback(self, n: int, callback: C) -> Self {
        DriverView {
            issued: self.issued,
            alarms: self.alarms.update(
                n,
                AlarmState { timestamp: self.alarms[n].timestamp, callback: Some(callback) },
            ),
        }
    }

    /// The pool after alarm `n` got the deadline `timestamp`.
    pub open spec fn with_deadline(self, n: int, timestamp: u64) -> Self {
        DriverView {
            issued: self.issued,
            alarms: self.alarms.update(
                n,
                AlarmState { timestamp, callback: self.alarms[n].callback },
            ),
        }
    }

    /// The pool after alarm `n` was set for `timestamp` and the clock, read
    /// again, stood at `now`.
    pub open spec fn set_alarm(self, n: int, timestamp: u64, now: u64) -> Self {
        if timestamp <= now {
            self.with_deadline(n, DISARMED)
        } else {
            self.with_deadline(n, timestamp)
        }
    }

    /// Whether alarm `n` is due when the clock stands at `now`.
    pub open spec fn due(self, n: int, now: u64) -> bool {
        self.alarms[n].timestamp <= now
    }

    /// The pool after the interrupt of channel `n` was served at `now`.
    pub open spec fn check_alarm(self, n: int, now: u64) -> Self {
        if self.due(n, now) {
            self.with_deadline(n, DISARMED)
        } else {
            self
        }
    }

    /// What the interrupt handler of channel `n` has to do at `now`.
    pub open spec fn service(self, n: int, now: u64) -> AlarmService<C> {
        AlarmService {
            disarm: if self.due(n, now) {
                alarm_mask(n)
            } else {
                0
            },
            callback: if self.due(n, now) {
                self.alarms[n].callback
            } else {
                None
            },
            acknowledge: alarm_mask(n),
        }
    }
}

/// Names one alarm of the pool.
#[derive(Clone, Copy, Debug)]
pub struct AlarmHandle {
    id: u8,
}

impl AlarmHandle {
    #[verifier::type_invariant]
    spec fn in_pool(self) -> bool {
        self.id < ALARM_COUNT
    }

    /// The channel that the handle names.
    pub closed spec fn channel(self) -> int {
        self.id as int
    }

    /// The handle of channel `id`, if the pool has such a channel.
    pub fn new(id: u8) -> (handle: Option<AlarmHandle>)
        ensures
            handle is Some <==> id < ALARM_COUNT,
            handle matches Some(h) ==> h.channel() == id,
    {
        if (id as usize) < ALARM_COUNT {
            Some(AlarmHandle { id })
        } else {
            None
        }
    }

    /// The channel that the handle names.
    pub fn id(&self) -> (id: u8)
        ensures
            id == self.channel(),
            id < ALARM_COUNT,
    {
        proof {
            use_type_invariant(self);
        }
        self.id
    }
}

/// The id that follows `issued` handles, while the pool has an alarm left.
pub fn next_alarm(issued: u8) -> (next: Option<u8>)
    ensures
        next == (if issued < ALARM_COUNT {
            Some((issued + 1) as u8)
        } else {
            None
        }),
{
    if (issued as usize) < ALARM_COUNT {
        Some(issued + 1)
    } else {
        None
    }
}

/// The clock and alarm pool of one timer.
pub struct TimerDriver<C> {
    alarms: [AlarmState<C>; ALARM_COUNT],
    next_alarm: AtomicU8,
}

impl<C: Copy> View for TimerDriver<C> {
    type V = DriverView<C>;

    closed spec fn view(&self) -> DriverView<C> {
        DriverView { issued: counter_value(self.next_alarm) as nat, alarms: self.alarms@ }
    }
}

impl<C: Copy> TimerDriver<C> {
    /// The pool at start.
    pub fn new() -> (driver: Self)
        ensures
            driver@ == DriverView::<C>::fresh(),
            driver@.wf(),
    {
        let driver = TimerDriver {
            alarms: [
                AlarmState { timestamp: DISARMED, callback: None },
                AlarmState { timestamp: DISARMED, callback: None },
                AlarmState { timestamp: DISARMED, callback: None },
                AlarmState { timestamp: DISARMED, callback: None },
            ],
            next_alarm: AtomicU8::new(0),
        };
        assert(driver@.alarms =~= DriverView::<C>::fresh().alarms);
        driver
    }

    /// One step of reading the clock. `high` is the upper half as read first,
    /// `low` the lower half read after it, `high2` the upper half read
    /// last. Where the two upper halves agree the halves belong together and
    /// make the count; where they differ the lower half may have wrapped in
    /// between, and the read starts over with `high2` as the first upper half.
    pub fn now(high: u32, low: u32, high2: u32) -> (reading: Option<u64>)
        ensures
            reading == read_clock(high, low, high2),
    {
        if high == high2 {
            let count: u64 = ((high as u64) << 32) | (low as u64);
            assert(((high as u64) << 32) | (low as u64) == (high as u64) * 0x1_0000_0000
                + (low as u64)) by (bit_vector);
            Some(count)
        } else {
            None
        }
    }

    /// Issues the next unused alarm, or nothing once all four are issued.
    pub fn allocate_alarm(&mut self) -> (handle: Option<AlarmHandle>)
        ensures
            final(self)@ == old(self)@.allocate(),
            old(self)@.wf() ==> final(self)@.wf(),
            match handle {
                Some(h) => old(self)@.next_id() == Some(h.channel()),
                None => old(self)@.next_id() is None,
            },
    {
        match fetch_update(&mut self.next_alarm, next_alarm) {
            Ok(id) => Some(AlarmHandle { id }),
            Err(_) => None,
        }
    }

    /// Stores the callback of an alarm. Nothing fires before a deadline is set.
    pub fn set_alarm_callback(&mut self, alarm: AlarmHandle, callback: C)
        ensures
            final(self)@ == old(self)@.with_callback(alarm.channel(), callback),
            old(self)@.wf() ==> final(self)@.wf(),
    {
        proof {
            use_type_invariant(alarm);
        }
        let n = alarm.id as usize;
        let timestamp = self.alarms[n].timestamp;
        self.alarms[n] = AlarmState { timestamp, callback: Some(callback) };
    }

    /// The deadline of an alarm; `DISARMED` while it is not set.
    pub fn deadline(&self, alarm: AlarmHandle) -> (timestamp: u64)
        ensures
            timestamp == self@.alarms[alarm.channel()].timestamp,
    {
        proof {
            use_type_invariant(alarm);
        }
        self.alarms[alarm.id as usize].timestamp
    }

    /// The callback of an alarm, if it has one.
    pub fn callback(&self, alarm: AlarmHandle) -> (callback: Option<C>)
        ensures
            callback == self@.alarms[alarm.channel()].callback,
    {
        proof {
            use_type_invariant(alarm);
        }
        self.alarms[alarm.id as usize].callback
    }

    /// The value for the compare register of an alarm due at `timestamp`: its
    /// low 32 bits.
    pub fn alarm_compare(timestamp: u64) -> (compare: u32)
        ensures
            compare == low_half(timestamp),
    {
        assert(timestamp & 0xffff_ffff == timestamp % 0x1_0000_0000) by (bit_vector);
        (timestamp & 0xffff_ffff) as u32
    }

    /// Sets an alarm. `now` is the clock as read after the channel's compare
    /// register was loaded with `alarm_compare(timestamp)`. A deadline that
    /// `now` has reached is not waited for: the alarm goes back to unset, the
    /// channel's armed bit is to be cleared, and the caller treats the alarm as due.
    pub fn set_alarm(&mut self, alarm: AlarmHandle, timestamp: u64, now: u64) -> (set: AlarmSet)
        ensures
            final(self)@ == old(self)@.set_alarm(alarm.channel(), timestamp, now),
            old(self)@.wf() ==> final(self)@.wf(),
            set == alarm_set(alarm.channel(), timestamp, now),
    {
        proof {
            use_type_invariant(alarm);
        }
        let n = alarm.id as usize;
        let callback = self.alarms[n].callback;
        if timestamp <= now {
            self.alarms[n] = AlarmState { timestamp: DISARMED, callback };
            AlarmSet { armed: false, disarm: channel_mask(n) }
        } else {
            self.alarms[n] = AlarmState { timestamp, callback };
            AlarmSet { armed: true, disarm: 0 }
        }
    }

    /// Serves the interrupt of channel `n` with the clock at `now`. A due
    /// alarm goes back to unset and hands out its callback; the interrupt is
    /// acknowledged in either case.
    pub fn check_alarm(&mut self, n: usize, now: u64) -> (service: AlarmService<C>)
        requires
            n < ALARM_COUNT,
        ensures
            final(self)@ == old(self)@.check_alarm(n as int, now),
            old(self)@.wf() ==> final(self)@.wf(),
            service == old(self)@.service(n as int, now),
    {
        let timestamp = self.alarms[n].timestamp;
        let callback = self.alarms[n].callback;
        let mask = channel_mask(n);
        if timestamp <= now {
            self.alarms[n] = AlarmState { timestamp: DISARMED, callback };
            AlarmService { disarm: mask, callback, acknowledge: mask }
        } else {
            AlarmService { disarm: 0, callback: None, acknowledge: mask }
        }
    }
}

/// Allocation saturates: after `count` allocations on a new pool the next one
/// issues the id `count` while `count` is below four, so the first four
/// handles are 0, 1, 2 and 3, and every allocation from the fifth on fails.
pub proof fn lemma_allocation_saturates<C>(count: nat)
    ensures
        DriverView::<C>::fresh().allocate_many(count).wf(),
        DriverView::<C>::fresh().allocate_many(count).alarms == DriverView::<C>::fresh().alarms,
        DriverView::<C>::fresh().allocate_many(count).issued == (if count < ALARM_COUNT {
            count
        } else {
            ALARM_COUNT as nat
        }),
        DriverView::<C>::fresh().allocate_many(count).next_id() == (if count < ALARM_COUNT {
            Some(count as int)
        } else {
            None
        }),
    decreases count,
{
    if count > 0 {
        lemma_allocation_saturates::<C>((count - 1) as nat);
    }
}

/// A deadline that the clock has reached leaves the channel disarmed:
/// `set_alarm` answers "not armed", the write it asks for clears the
/// channel's bit in the armed register `armed`, the alarm is unset, and
/// serving the channel's interrupt afterwards changes nothing and hands out
/// no callback, until the alarm is set again. (The clock does not reach
/// `u64::MAX`, the deadline that stands for "unset".)
pub proof fn lemma_elapsed_deadline_leaves_disarmed<C>(
    pool: DriverView<C>,
    n: int,
    timestamp: u64,
    now: u64,
    later: u64,
    armed: u32,
)
    requires
        pool.wf(),
        0 <= n < ALARM_COUNT,
        timestamp <= now,
        later < u64::MAX,
    ensures
        alarm_set(n, timestamp, now) == (AlarmSet { armed: false, disarm: alarm_mask(n) }),
        (armed & !alarm_set(n, timestamp, now).disarm) & alarm_mask(n) == 0,
        pool.set_alarm(n, timestamp, now).alarms[n].timestamp == DISARMED,
        pool.set_alarm(n, timestamp, now).alarms[n].callback == pool.alarms[n].callback,
        pool.set_alarm(n, timestamp, now).check_alarm(n, later) == pool.set_alarm(
            n,
            timestamp,
            now,
        ),
        pool.set_alarm(n, timestamp, now).service(n, later) == (AlarmService::<C> {
            disarm: 0,
            callback: None,
            acknowledge: alarm_mask(n),
        }),
{
    let mask = alarm_mask(n);
    assert((armed & !mask) & mask == 0) by (bit_vector);
}

/// An alarm fires when it is due and once only: a callback is handed out
/// only with the clock at or past the deadline, and the interrupt that
/// hands it out leaves the alarm unset, so that no later interrupt of the
/// channel hands it out again until the alarm is set anew. (The clock does
/// not reach `u64::MAX`, the deadline that stands for "unset".)
pub proof fn lemma_due_alarm_fires_once<C>(pool: DriverView<C>, n: int, now: u64, later: u64)
    requires
        pool.wf(),
        0 <= n < ALARM_COUNT,
        later < u64::MAX,
    ensures
        pool.service(n, now).callback is Some ==> pool.alarms[n].timestamp <= now,
        pool.due(n, now) ==> pool.check_alarm(n, now).alarms[n].timestamp == DISARMED
            && pool.check_alarm(n, now).service(n, later).callback is None
            && pool.check_alarm(n, now).service(n, later).disarm == 0,
        !pool.due(n, now) ==> pool.check_alarm(n, now) == pool && pool.service(
            n,
            now,
        ).callback is None,
{
}

/// Setting or serving one alarm leaves the other three, and the number of
/// handles issued, as they were.
pub proof fn lemma_other_alarms_keep<C>(
    pool: DriverView<C>,
    n: int,
    m: int,
    timestamp: u64,
    now: u64,
)
    requires
        pool.wf(),
        0 <= n < ALARM_COUNT,
        0 <= m < ALARM_COUNT,
        m != n,
    ensures
        pool.set_alarm(n, timestamp, now).alarms[m] == pool.alarms[m],
        pool.check_alarm(n, now).alarms[m] == pool.alarms[m],
        pool.set_alarm(n, timestamp, now).issued == pool.issued,
        pool.check_alarm(n, now).issued == pool.issued,
        pool.set_alarm(n, timestamp, now).wf(),
        pool.check_alarm(n, now).wf(),
{
}

/// Interrupt handler of alarm 0 of the timer: serves channel 0 of the driver.
#[allow(non_snake_case)]
pub fn TIMER_IRQ_0<C: Copy>(driver: &mut TimerDriver<C>, now: u64) -> (service: AlarmService<C>)
    ensures
        final(driver)@ == old(driver)@.check_alarm(0, now),
        old(driver)@.wf() ==> final(driver)@.wf(),
        service == old(driver)@.service(0, now),
{
    driver.check_alarm(0, now)
}

/// Interrupt handler of alarm 1 of the timer: serves channel 1 of the driver.
#[allow(non_snake_case)]
pub fn TIMER_IRQ_1<C: Copy>(driver: &mut TimerDriver<C>, now: u64) -> (service: AlarmService<C>)
    ensures
        final(driver)@ == old(driver)@.check_alarm(1, now),
        old(driver)@.wf() ==> final(driver)@.wf(),
        service == old(driver)@.service(1, now),
{
    driver.check_alarm(1, now)
}

/// Interrupt handler of alarm 2 of the timer: serves channel 2 of the driver.
#[allow(non_snake_case)]
pub fn TIMER_IRQ_2<C: Copy>(driver: &mut TimerDriver<C>, now: u64) -> (service: AlarmService<C>)
    ensures
        final(driver)@ == old(driver)@.check_alarm(2, now),
        old(driver)@.wf() ==> final(driver)@.wf(),
        service == old(driver)@.service(2, now),
{
    driver.check_alarm(2, now)
}

/// Interrupt handler of alarm 3 of the timer: serves channel 3 of the driver.
#[allow(non_snake_case)]
pub fn TIMER_IRQ_3<C: Copy>(driver: &mut TimerDriver<C>, now: u64) -> (service: AlarmService<C>)
    ensures
        final(driver)@ == old(driver)@.check_alarm(3, now),
        old(driver)@.wf() ==> final(driver)@.wf(),
        service == old(driver)@.service(3, now),
{
    driver.check_alarm(3, now)
}

/// Interrupt handler of alarm 0 of the second timer: serves channel 0 of the driver.
#[allow(non_snake_case)]
pub fn TIMER1_IRQ_0<C: Copy>(driver: &mut TimerDriver<C>, now: u64) -> (service: AlarmService<C>)
    ensures
        final(driver)@ == old(driver)@.check_alarm(0, now),
        old(driver)@.wf() ==> final(driver)@.wf(),
        service == old(driver)@.service(0, now),
{
    driver.check_alarm(0, now)
}

/// Interrupt handler of alarm 1 of the second timer: serves channel 1 of the driver.
#[allow(non_snake_case)]
pub fn TIMER1_IRQ_1<C: Copy>(driver: &mut TimerDriver<C>, now: u64) -> (service: AlarmService<C>)
    ensures
        final(driver)@ == old(driver)@.check_alarm(1, now),
        old(driver)@.wf() ==> final(driver)@.wf(),
        service == old(driver)@.service(1, now),
{
    driver.check_alarm(1, now)
}

/// Interrupt handler of alarm 2 of the second timer: serves channel 2 of the driver.
#[allow(non_snake_case)]
pub fn TIMER1_IRQ_2<C: Copy>(driver: &mut TimerDriver<C>, now: u64) -> (service: AlarmService<C>)
    ensures
        final(driver)@ == old(driver)@.check_alarm(2, now),
        old(driver)@.wf() ==> final(driver)@.wf(),
        service == old(driver)@.service(2, now),
{
    driver.check_alarm(2, now)
}

/// Interrupt handler of alarm 3 of the second timer: serves channel 3 of the driver.
#[allow(non_snake_case)]
pub fn TIMER1_IRQ_3<C: Copy>(driver: &mut TimerDriver<C>, now: u64) -> (service: AlarmService<C>)
    ensures
        final(driver)@ == old(driver)@.check_alarm(3, now),
        old(driver)@.wf() ==> final(driver)@.wf(),
        service == old(driver)@.service(3, now),
{
    driver.check_alarm(3, now)
}

} // verus!
