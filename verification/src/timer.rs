//! The timer as values: the bit of each alarm channel in the per-channel
//! registers, and the free-running 64-bit counter that is read in two halves.
//!
//! The counter only moves forward, by one each microsecond. Its halves are
//! read one after the other, so the lower half may wrap, and the upper half
//! step, between two reads.

use vstd::prelude::*;

verus! {

/// Number of alarm channels of the timer.
pub const ALARM_COUNT: usize = 4;

/// The bit of channel `n` in the timer's per-channel registers.
pub open spec fn alarm_mask(n: int) -> u32 {
    if n == 0 {
        1
    } else if n == 1 {
        2
    } else if n == 2 {
        4
    } else {
        8
    }
}

/// The 64-bit count that the two halves of the free-running counter make.
pub open spec fn ticks(high: u32, low: u32) -> u64 {
    (high as int * 0x1_0000_0000 + low as int) as u64
}

/// Upper half of the counter when it stands at `count`.
pub open spec fn high_half(count: u64) -> u32 {
    (count / 0x1_0000_0000) as u32
}

/// Lower half of the counter when it stands at `count`.
pub open spec fn low_half(count: u64) -> u32 {
    (count % 0x1_0000_0000) as u32
}

/// What one try at reading the clock gives: the count where the two reads of
/// the upper half agree, nothing where they differ.
pub open spec fn read_clock(high: u32, low: u32, high2: u32) -> Option<u64> {
    if high == high2 {
        Some(ticks(high, low))
    } else {
        None
    }
}

/// The bit of channel `n` in the timer's per-channel registers.
pub fn channel_mask(n: usize) -> (mask: u32)
    requires
        n < ALARM_COUNT,
    ensures
        mask == alarm_mask(n as int),
{
    assert(1u32 << 0 == 1 && 1u32 << 1 == 2 && 1u32 << 2 == 4 && 1u32 << 3 == 8) by (bit_vector);
    1u32 << n
}

/// A reading that is accepted is exact. The counter only moves forward, so
/// three reads in a row see it at `first <= middle <= last`. Where the upper
/// half was the same at `first` and at `last`, the halves read make the count
/// at `middle`, the moment the lower half was read.
pub proof fn lemma_accepted_reading_is_exact(first: u64, middle: u64, last: u64)
    requires
        first <= middle <= last,
        high_half(first) == high_half(last),
    ensures
        read_clock(high_half(first), low_half(middle), high_half(last)) == Some(middle),
{
    assert(high_half(middle) == high_half(first));
}

/// The clock is monotonic: of two accepted readings, the one whose lower half
/// was read later is not the smaller one, whatever the lower half did between
/// the reads of the upper half.
pub proof fn lemma_now_is_monotonic(
    first: u64,
    middle: u64,
    last: u64,
    first2: u64,
    middle2: u64,
    last2: u64,
)
    requires
        first <= middle <= last,
        first2 <= middle2 <= last2,
        middle <= middle2,
        read_clock(high_half(first), low_half(middle), high_half(last)) is Some,
        read_clock(high_half(first2), low_half(middle2), high_half(last2)) is Some,
    ensures
        read_clock(high_half(first), low_half(middle), high_half(last))->Some_0 <= read_clock(
            high_half(first2),
            low_half(middle2),
            high_half(last2),
        )->Some_0,
{
    lemma_accepted_reading_is_exact(first, middle, last);
    lemma_accepted_reading_is_exact(first2, middle2, last2);
}

/// Reading the clock ends with the second try at the latest: where the
/// counter moves by less than 2^32 ticks while five reads are made (upper,
/// lower, upper, lower, upper) and the first try is refused, the second one,
/// which starts from the upper half read in the middle, is accepted.
pub proof fn lemma_second_try_is_accepted(t0: u64, t1: u64, t2: u64, t3: u64, t4: u64)
    requires
        t0 <= t1 <= t2 <= t3 <= t4,
        t4 - t0 < 0x1_0000_0000,
        read_clock(high_half(t0), low_half(t1), high_half(t2)) is None,
    ensures
        read_clock(high_half(t2), low_half(t3), high_half(t4)) == Some(t3),
{
    assert(high_half(t0) < high_half(t2));
    assert(high_half(t4) == high_half(t2));
    lemma_accepted_reading_is_exact(t2, t3, t4);
}

} // verus!
