use rp_hal_async::time_driver::{
    next_alarm, AlarmHandle, TimerDriver, DISARMED, TIMER1_IRQ_0, TIMER1_IRQ_1, TIMER1_IRQ_2,
    TIMER1_IRQ_3, TIMER_IRQ_0, TIMER_IRQ_1, TIMER_IRQ_2, TIMER_IRQ_3,
};
use rp_hal_async::timer::{channel_mask, ALARM_COUNT};

/// A free-running counter whose halves are read one at a time, and which
/// moves on by a chosen number of ticks before each read.
struct Counter {
    count: u64,
    steps: Vec<u64>,
    reads: usize,
}

impl Counter {
    fn new(count: u64, steps: &[u64]) -> Counter {
        Counter { count, steps: steps.to_vec(), reads: 0 }
    }

    fn advance(&mut self) {
        let step = self.steps.get(self.reads).copied().unwrap_or(0);
        self.count += step;
        self.reads += 1;
    }

    fn high(&mut self) -> u32 {
        self.advance();
        (self.count >> 32) as u32
    }

    fn low(&mut self) -> u32 {
        self.advance();
        self.count as u32
    }
}

/// Reads the clock as the driver's caller does. Gives the count and the
/// number of tries.
fn read(counter: &mut Counter) -> (u64, usize) {
    let mut high = counter.high();
    let mut tries = 1;
    loop {
        let low = counter.low();
        let high2 = counter.high();
        if let Some(count) = TimerDriver::<u32>::now(high, low, high2) {
            return (count, tries);
        }
        high = high2;
        tries += 1;
        assert!(tries <= 2);
    }
}

fn handle(id: u8) -> AlarmHandle {
    AlarmHandle::new(id).unwrap()
}

#[test]
fn pool_has_four_alarms() {
    assert_eq!(ALARM_COUNT, 4);
    assert_eq!(DISARMED, u64::MAX);
}

#[test]
fn now_joins_the_halves() {
    assert_eq!(TimerDriver::<u32>::now(1, 2, 1), Some(0x1_0000_0002));
    assert_eq!(TimerDriver::<u32>::now(0, 0, 0), Some(0));
    assert_eq!(TimerDriver::<u32>::now(0, 2000, 0), Some(2000));
    assert_eq!(
        TimerDriver::<u32>::now(0xffff_ffff, 0xffff_ffff, 0xffff_ffff),
        Some(u64::MAX)
    );
    assert_eq!(
        TimerDriver::<u32>::now(0xdead_beef, 0x0bad_cafe, 0xdead_beef),
        Some(0xdead_beef_0bad_cafe)
    );
}

#[test]
fn now_refuses_halves_that_do_not_belong_together() {
    assert_eq!(TimerDriver::<u32>::now(1, 2, 2), None);
    assert_eq!(TimerDriver::<u32>::now(0, 0xffff_ffff, 1), None);
    assert_eq!(TimerDriver::<u32>::now(5, 0, 4), None);
}

#[test]
fn clock_read_without_wrap_takes_one_try() {
    let mut counter = Counter::new(0x7_0000_1000, &[1, 1, 1]);
    assert_eq!(read(&mut counter), (0x7_0000_1002, 1));
}

#[test]
fn clock_read_across_a_wrap_takes_two_tries() {
    // The lower half wraps between the first read of the upper half and
    // the read of the lower half.
    let mut counter = Counter::new(0x0_ffff_fffe, &[0, 5, 1, 1, 1]);
    let (count, tries) = read(&mut counter);
    assert_eq!(tries, 2);
    assert_eq!(count, 0x1_0000_0005);
}

#[test]
fn clock_read_with_wrap_before_the_last_read_takes_two_tries() {
    // The lower half is read just before the wrap, the upper half just after.
    let mut counter = Counter::new(0x3_ffff_fff0, &[0, 1, 0x20, 1, 1]);
    let (count, tries) = read(&mut counter);
    assert_eq!(tries, 2);
    assert_eq!(count, 0x4_0000_0012);
}

#[test]
fn clock_is_monotonic_across_wraps() {
    let steps: Vec<u64> = (0..400).map(|i| if i % 7 == 3 { 0x4000_0000 } else { 3 }).collect();
    let mut counter = Counter::new(0xffff_ff00, &steps);
    let mut last = 0;
    for _ in 0..60 {
        let before = counter.count;
        let (count, _) = read(&mut counter);
        assert!(count >= last);
        assert!(count >= before);
        assert!(count <= counter.count);
        last = count;
    }
}

#[test]
fn fifth_allocation_fails() {
    let mut driver = TimerDriver::<u32>::new();
    let ids: Vec<u8> = (0..4).map(|_| driver.allocate_alarm().unwrap().id()).collect();
    assert_eq!(ids, vec![0, 1, 2, 3]);
    assert!(driver.allocate_alarm().is_none());
    assert!(driver.allocate_alarm().is_none());
}

#[test]
fn first_four_handles_are_distinct() {
    let mut driver = TimerDriver::<u32>::new();
    let mut ids = Vec::new();
    while let Some(handle) = driver.allocate_alarm() {
        assert!(!ids.contains(&handle.id()));
        ids.push(handle.id());
    }
    assert_eq!(ids.len(), 4);
}

#[test]
fn next_alarm_counts_up_to_the_pool_size() {
    assert_eq!(next_alarm(0), Some(1));
    assert_eq!(next_alarm(3), Some(4));
    assert_eq!(next_alarm(4), None);
    assert_eq!(next_alarm(255), None);
}

#[test]
fn handles_name_pool_channels_only() {
    assert_eq!(AlarmHandle::new(0).unwrap().id(), 0);
    assert_eq!(AlarmHandle::new(3).unwrap().id(), 3);
    assert!(AlarmHandle::new(4).is_none());
    assert!(AlarmHandle::new(255).is_none());
}

#[test]
fn channel_masks_are_single_bits() {
    assert_eq!(channel_mask(0), 0b0001);
    assert_eq!(channel_mask(1), 0b0010);
    assert_eq!(channel_mask(2), 0b0100);
    assert_eq!(channel_mask(3), 0b1000);
}

#[test]
fn compare_register_gets_low_half_of_deadline() {
    assert_eq!(TimerDriver::<u32>::alarm_compare(2000), 2000);
    assert_eq!(TimerDriver::<u32>::alarm_compare(0x1_0000_0005), 5);
    assert_eq!(TimerDriver::<u32>::alarm_compare(0xdead_beef_0bad_cafe), 0x0bad_cafe);
    assert_eq!(TimerDriver::<u32>::alarm_compare(u64::MAX), 0xffff_ffff);
}

#[test]
fn new_pool_has_no_alarm_set() {
    let driver = TimerDriver::<u32>::new();
    for id in 0..4 {
        assert_eq!(driver.deadline(handle(id)), DISARMED);
        assert_eq!(driver.callback(handle(id)), None);
    }
}

#[test]
fn future_deadline_arms() {
    let mut driver = TimerDriver::<u32>::new();
    let set = driver.set_alarm(handle(1), 2000, 1999);
    assert!(set.armed);
    assert_eq!(set.disarm, 0);
    assert_eq!(driver.deadline(handle(1)), 2000);
    assert_eq!(driver.deadline(handle(0)), DISARMED);
}

#[test]
fn elapsed_deadline_resets_the_alarm_and_clears_the_armed_bit() {
    let mut driver = TimerDriver::<u32>::new();
    driver.set_alarm_callback(handle(3), 11);
    assert!(driver.set_alarm(handle(3), 700, 600).armed);
    let mut armed: u32 = 0b1010;
    let set = driver.set_alarm(handle(3), 650, 650);
    assert!(!set.armed);
    armed &= !set.disarm;
    assert_eq!(armed, 0b0010);
    assert_eq!(driver.deadline(handle(3)), DISARMED);
    assert_eq!(driver.callback(handle(3)), Some(11));
}

#[test]
fn fired_alarm_goes_back_to_unset() {
    let mut driver = TimerDriver::<u32>::new();
    driver.set_alarm_callback(handle(2), 8);
    driver.set_alarm(handle(2), 40, 0);
    driver.check_alarm(2, 39);
    assert_eq!(driver.deadline(handle(2)), 40);
    driver.check_alarm(2, 40);
    assert_eq!(driver.deadline(handle(2)), DISARMED);
    assert_eq!(driver.callback(handle(2)), Some(8));
}

#[test]
fn elapsed_deadline_is_refused_and_disarms() {
    let mut driver = TimerDriver::<u32>::new();
    driver.set_alarm_callback(handle(2), 7);
    let set = driver.set_alarm(handle(2), 2000, 2000);
    assert!(!set.armed);
    assert_eq!(set.disarm, 0b0100);
    let set = driver.set_alarm(handle(2), 10, 2000);
    assert!(!set.armed);
    assert_eq!(set.disarm, 0b0100);
    // No interrupt of the channel finds anything due afterwards.
    for now in [0, 2000, 2001, u64::MAX - 1] {
        let service = driver.check_alarm(2, now);
        assert_eq!(service.disarm, 0);
        assert_eq!(service.callback, None);
        assert_eq!(service.acknowledge, 0b0100);
    }
    // Until the alarm is set again for a deadline ahead.
    assert!(driver.set_alarm(handle(2), 3000, 2000).armed);
    let service = driver.check_alarm(2, 3000);
    assert_eq!(service.callback, Some(7));
}

#[test]
fn due_alarm_fires_once() {
    let mut driver = TimerDriver::<u32>::new();
    driver.set_alarm_callback(handle(0), 41);
    assert!(driver.set_alarm(handle(0), 500, 100).armed);
    let service = driver.check_alarm(0, 500);
    assert_eq!(service.disarm, 1);
    assert_eq!(service.callback, Some(41));
    assert_eq!(service.acknowledge, 1);
    let service = driver.check_alarm(0, 501);
    assert_eq!(service.disarm, 0);
    assert_eq!(service.callback, None);
    assert_eq!(service.acknowledge, 1);
}

#[test]
fn early_interrupt_is_only_acknowledged() {
    let mut driver = TimerDriver::<u32>::new();
    driver.set_alarm_callback(handle(3), 9);
    assert!(driver.set_alarm(handle(3), 500, 100).armed);
    let service = driver.check_alarm(3, 499);
    assert_eq!(service.disarm, 0);
    assert_eq!(service.callback, None);
    assert_eq!(service.acknowledge, 0b1000);
    // The alarm is still set.
    let service = driver.check_alarm(3, 500);
    assert_eq!(service.disarm, 0b1000);
    assert_eq!(service.callback, Some(9));
}

#[test]
fn due_alarm_without_callback_disarms_silently() {
    let mut driver = TimerDriver::<u32>::new();
    assert!(driver.set_alarm(handle(1), 5, 4).armed);
    let service = driver.check_alarm(1, 6);
    assert_eq!(service.disarm, 0b0010);
    assert_eq!(service.callback, None);
    assert_eq!(service.acknowledge, 0b0010);
}

#[test]
fn callback_alone_does_not_fire() {
    let mut driver = TimerDriver::<u32>::new();
    driver.set_alarm_callback(handle(0), 1);
    let service = driver.check_alarm(0, 1_000_000);
    assert_eq!(service.disarm, 0);
    assert_eq!(service.callback, None);
}

#[test]
fn later_callback_replaces_earlier() {
    let mut driver = TimerDriver::<u32>::new();
    driver.set_alarm_callback(handle(0), 1);
    driver.set_alarm_callback(handle(0), 2);
    assert!(driver.set_alarm(handle(0), 10, 0).armed);
    assert_eq!(driver.check_alarm(0, 10).callback, Some(2));
}

#[test]
fn callback_survives_firing() {
    let mut driver = TimerDriver::<u32>::new();
    driver.set_alarm_callback(handle(0), 5);
    assert!(driver.set_alarm(handle(0), 10, 0).armed);
    assert_eq!(driver.check_alarm(0, 10).callback, Some(5));
    assert!(driver.set_alarm(handle(0), 20, 11).armed);
    assert_eq!(driver.check_alarm(0, 25).callback, Some(5));
}

#[test]
fn alarms_do_not_disturb_each_other() {
    let mut driver = TimerDriver::<u32>::new();
    for id in 0..4u8 {
        driver.set_alarm_callback(handle(id), 100 + id as u32);
        assert!(driver.set_alarm(handle(id), 1000 * (id as u64 + 1), 0).armed);
    }
    assert!(!driver.set_alarm(handle(1), 5, 10).armed);
    assert_eq!(driver.check_alarm(2, 3000).callback, Some(102));
    assert_eq!(driver.check_alarm(1, 3000).callback, None);
    assert_eq!(driver.check_alarm(0, 999).callback, None);
    assert_eq!(driver.check_alarm(0, 1000).callback, Some(100));
    assert_eq!(driver.check_alarm(3, 4000).callback, Some(103));
}

#[test]
fn setting_alarms_does_not_issue_handles() {
    let mut driver = TimerDriver::<u32>::new();
    assert_eq!(driver.allocate_alarm().unwrap().id(), 0);
    driver.set_alarm_callback(handle(3), 1);
    driver.set_alarm(handle(3), 10, 0);
    driver.check_alarm(3, 10);
    assert_eq!(driver.allocate_alarm().unwrap().id(), 1);
}

#[test]
fn timer_handlers_serve_their_channel() {
    let handlers: [fn(&mut TimerDriver<u32>, u64) -> _; 4] =
        [TIMER_IRQ_0, TIMER_IRQ_1, TIMER_IRQ_2, TIMER_IRQ_3];
    for (n, handler) in handlers.iter().enumerate() {
        let mut driver = TimerDriver::<u32>::new();
        for id in 0..4u8 {
            driver.set_alarm_callback(handle(id), id as u32);
            assert!(driver.set_alarm(handle(id), 10, 0).armed);
        }
        let service = handler(&mut driver, 10);
        assert_eq!(service.disarm, 1 << n);
        assert_eq!(service.acknowledge, 1 << n);
        assert_eq!(service.callback, Some(n as u32));
        // Served once; the other three are still due.
        assert_eq!(handler(&mut driver, 10).callback, None);
        for other in 0..4usize {
            if other != n {
                assert_eq!(driver.check_alarm(other, 10).callback, Some(other as u32));
            }
        }
    }
}

#[test]
fn second_timer_handlers_serve_their_channel() {
    let handlers: [fn(&mut TimerDriver<u32>, u64) -> _; 4] =
        [TIMER1_IRQ_0, TIMER1_IRQ_1, TIMER1_IRQ_2, TIMER1_IRQ_3];
    for (n, handler) in handlers.iter().enumerate() {
        let mut driver = TimerDriver::<u32>::new();
        driver.set_alarm_callback(handle(n as u8), 77);
        assert!(driver.set_alarm(handle(n as u8), 10, 0).armed);
        let early = handler(&mut driver, 9);
        assert_eq!(early.disarm, 0);
        assert_eq!(early.callback, None);
        assert_eq!(early.acknowledge, 1 << n);
        let service = handler(&mut driver, 10);
        assert_eq!(service.disarm, 1 << n);
        assert_eq!(service.acknowledge, 1 << n);
        assert_eq!(service.callback, Some(77));
    }
}
