use rp_hal_async::completion::{Gate, Poll, State, Step};
use rp_hal_async::delay::{alarm_irq, Alarm, AlarmIrq, AsyncAlarm};
use rp_hal_async::timer::ALARM_COUNT;
use rp_hal_async::waker::WakerRegistry;
use rp_hal_async::IntoAsync;
use std::sync::atomic::{AtomicUsize, Ordering};
use std::sync::Arc;
use std::task::{Wake, Waker};

/// A task that counts how often it was woken.
struct Task {
    woken: AtomicUsize,
}

impl Wake for Task {
    fn wake(self: Arc<Self>) {
        self.woken.fetch_add(1, Ordering::SeqCst);
    }
}

fn new_task() -> (Arc<Task>, Waker) {
    let task = Arc::new(Task { woken: AtomicUsize::new(0) });
    let waker = Waker::from(task.clone());
    (task, waker)
}

fn woken(task: &Arc<Task>) -> usize {
    task.woken.load(Ordering::SeqCst)
}

fn alarm(channel: u8) -> AsyncAlarm {
    Alarm::new(channel).unwrap().into_async()
}

/// A timer with its counter, compare registers and interrupt bits.
struct Timer {
    count: u64,
    compare: [u32; ALARM_COUNT],
    armed: u32,
    enable: u32,
    raw: u32,
}

impl Timer {
    fn new() -> Timer {
        Timer { count: 0, compare: [0; ALARM_COUNT], armed: 0, enable: 0, raw: 0 }
    }

    fn schedule(&mut self, channel: u8, micros: u32) {
        self.compare[channel as usize] = (self.count as u32).wrapping_add(micros);
        self.armed |= 1 << channel;
    }

    /// Moves the counter on; gives the channels whose interrupt is raised.
    fn advance(&mut self, ticks: u64) -> Vec<u8> {
        for _ in 0..ticks {
            self.count += 1;
            for channel in 0..ALARM_COUNT {
                if self.armed & (1 << channel) != 0 && self.compare[channel] == self.count as u32 {
                    self.armed &= !(1 << channel);
                    self.raw |= 1 << channel;
                }
            }
        }
        (0..ALARM_COUNT as u8).filter(|c| self.raw & self.enable & (1 << c) != 0).collect()
    }

    fn serve(&mut self, service: AlarmIrq) {
        self.enable &= !service.disable;
        self.raw &= !service.acknowledge;
    }
}

#[test]
fn timer_has_four_alarms() {
    assert_eq!(ALARM_COUNT, 4);
    assert_eq!(Alarm::new(0).unwrap().channel(), 0);
    assert_eq!(Alarm::new(3).unwrap().channel(), 3);
    assert!(Alarm::new(4).is_none());
    assert!(Alarm::new(200).is_none());
}

#[test]
fn alarm_masks_are_single_bits() {
    let masks: Vec<u32> = (0..4).map(|c| Alarm::new(c).unwrap().mask()).collect();
    assert_eq!(masks, vec![0b0001, 0b0010, 0b0100, 0b1000]);
}

#[test]
fn into_async_keeps_the_alarm() {
    assert_eq!(alarm(2).channel().channel(), 2);
    assert_eq!(AsyncAlarm::new(Alarm::new(1).unwrap()).channel().channel(), 1);
}

#[test]
fn nanoseconds_round_up_to_microseconds() {
    let mut alarm = alarm(0);
    for (nanos, micros) in [
        (1, 1),
        (999, 1),
        (1000, 1),
        (1001, 2),
        (1999, 2),
        (2000, 2),
        (2_000_000, 2000),
        (4_294_967_000, 4_294_967),
        (4_294_967_001, 4_294_968),
        (u32::MAX, 4_294_968),
    ] {
        assert_eq!(alarm.delay_ns(nanos).unwrap().micros(), micros);
    }
}

#[test]
fn countdown_is_the_delay_in_microseconds() {
    let mut alarm = alarm(0);
    for (nanos, micros) in [(1, 1), (2_000_000, 2000), (u32::MAX, 4_294_968)] {
        let wait = alarm.delay_ns(nanos).unwrap();
        assert_eq!(wait.duration().to_micros(), micros);
        assert_eq!(wait.duration().ticks(), micros);
        assert_eq!(wait.duration(), fugit::MicrosDurationU32::micros(micros));
    }
    let wait = alarm.delay_ns(3_000_000).unwrap();
    assert_eq!(wait.duration().to_millis(), 3);
}

#[test]
fn delay_of_no_length_has_nothing_to_await() {
    let mut alarm = alarm(0);
    assert!(alarm.delay_ns(0).is_none());
}

#[test]
fn delay_starts_fresh_on_its_alarm() {
    let mut alarm = alarm(3);
    let wait = alarm.delay_ns(5000).unwrap();
    assert_eq!(wait.state(), State::Fresh);
    assert_eq!(wait.channel().channel(), 3);
    assert_eq!(wait.micros(), 5);
}

#[test]
fn delay_of_2000_ticks_resolves_after_the_alarm_fired() {
    let mut timer = Timer::new();
    let mut wakers = WakerRegistry::<ALARM_COUNT>::new();
    let (task, waker) = new_task();
    let (bystander, bystander_waker) = new_task();
    wakers.register(0, 2, &bystander_waker);
    timer.enable = 0b0100;
    timer.compare = [0, 0, 77, 0];

    let mut alarm = alarm(1);
    let mut delay = alarm.delay_ns(2_000_000).unwrap();
    assert_eq!(delay.micros(), 2000);
    let step = delay.poll(&mut wakers, 0, &waker);
    assert_eq!(
        step,
        Step { poll: Poll::Pending, register: true, gate: Gate::Arm(0b0010), repeated: false }
    );
    timer.schedule(delay.channel().channel(), delay.micros());
    timer.enable = step.gate.write(timer.enable);
    assert_eq!(timer.enable, 0b0110);
    assert_eq!(delay.state(), State::Armed);

    assert_eq!(timer.advance(1999), Vec::<u8>::new());
    assert_eq!(woken(&task), 0);
    assert_eq!(timer.advance(2), vec![1]);
    assert_eq!(timer.count, 2001);

    let service = alarm_irq(&mut wakers, 0, Alarm::new(1).unwrap());
    assert_eq!(service, AlarmIrq { disable: 0b0010, acknowledge: 0b0010 });
    timer.serve(service);
    assert_eq!(woken(&task), 1);

    let step = delay.poll(&mut wakers, 0, &waker);
    assert_eq!(
        step,
        Step { poll: Poll::Ready(()), register: false, gate: Gate::Disarm(0b0010), repeated: false }
    );
    timer.enable = step.gate.write(timer.enable);
    assert_eq!(delay.state(), State::Done);
    assert_eq!(delay.drop(), Gate::Keep);

    // Nothing of the other channels changed.
    assert_eq!(timer.enable, 0b0100);
    assert_eq!(timer.compare, [0, 2000, 77, 0]);
    assert_eq!(timer.raw, 0);
    assert!(wakers.is_waiting(0, 2));
    assert!(!wakers.is_waiting(0, 1));
    assert_eq!(woken(&bystander), 0);
    assert_eq!(woken(&task), 1);
}

#[test]
fn delay_dropped_while_armed_disables_its_interrupt() {
    let mut wakers = WakerRegistry::<ALARM_COUNT>::new();
    let (_task, waker) = new_task();
    let mut enable = 0b1001;
    let mut alarm = alarm(2);
    let mut delay = alarm.delay_ns(1).unwrap();
    enable = delay.poll(&mut wakers, 1, &waker).gate.write(enable);
    assert_eq!(enable, 0b1101);
    let gate = delay.drop();
    assert_eq!(gate, Gate::Disarm(0b0100));
    assert_eq!(gate.write(enable), 0b1001);
}

#[test]
fn delay_polled_after_ready_stays_ready() {
    let mut wakers = WakerRegistry::<ALARM_COUNT>::new();
    let (task, waker) = new_task();
    let mut alarm = alarm(0);
    let mut delay = alarm.delay_ns(10_000).unwrap();
    delay.poll(&mut wakers, 0, &waker);
    alarm_irq(&mut wakers, 0, delay.channel());
    delay.poll(&mut wakers, 0, &waker);
    let step = delay.poll(&mut wakers, 0, &waker);
    assert_eq!(
        step,
        Step { poll: Poll::Ready(()), register: false, gate: Gate::Keep, repeated: true }
    );
    assert!(!wakers.is_waiting(0, 0));
    assert_eq!(woken(&task), 1);
}

#[test]
fn alarm_handler_serves_its_channel_whether_somebody_waits_or_not() {
    let mut wakers = WakerRegistry::<ALARM_COUNT>::new();
    for channel in 0..4u8 {
        let service = alarm_irq(&mut wakers, 1, Alarm::new(channel).unwrap());
        assert_eq!(service, AlarmIrq { disable: 1 << channel, acknowledge: 1 << channel });
    }
}

#[test]
fn alarm_handler_wakes_its_core_only() {
    let mut wakers = WakerRegistry::<ALARM_COUNT>::new();
    let (here, here_waker) = new_task();
    let (there, there_waker) = new_task();
    wakers.register(0, 3, &here_waker);
    wakers.register(1, 3, &there_waker);
    alarm_irq(&mut wakers, 1, Alarm::new(3).unwrap());
    assert_eq!((woken(&here), woken(&there)), (0, 1));
    assert!(wakers.is_waiting(0, 3));
}

#[test]
fn alarm_handler_on_unknown_core_does_nothing() {
    let mut wakers = WakerRegistry::<ALARM_COUNT>::new();
    let (task, waker) = new_task();
    wakers.register(0, 0, &waker);
    let service = alarm_irq(&mut wakers, 2, Alarm::new(0).unwrap());
    assert_eq!(service, AlarmIrq { disable: 0, acknowledge: 0 });
    assert!(wakers.is_waiting(0, 0));
    assert_eq!(woken(&task), 0);
}
