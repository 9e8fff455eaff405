//! The atomic counter behind alarm allocation.

use core::sync::atomic::Ordering;
use portable_atomic::AtomicU8;
use vstd::prelude::*;

verus! {

#[verifier::external_type_specification]
#[verifier::external_body]
pub struct ExAtomicU8(AtomicU8);

/// The value that an atomic counter holds.
pub uninterp spec fn counter_value(counter: AtomicU8) -> u8;

/// `portable_atomic::AtomicU8::new`: the new counter holds `value`.
pub assume_specification[ AtomicU8::new ](value: u8) -> (counter: AtomicU8)
    ensures
        counter_value(counter) == value,
;

/// `portable_atomic::AtomicU8::fetch_update` on a counter that nobody else can
/// reach: `step` is applied to the value held; where it gives a next value,
/// that value is stored and the previous one comes back as `Ok`, where it
/// gives none, the counter keeps its value, which comes back as `Err`.
#[verifier::external_body]
pub(crate) fn fetch_update<F: Fn(u8) -> Option<u8>>(counter: &mut AtomicU8, step: F) -> (outcome:
    Result<u8, u8>)
    requires
        forall|held: u8| call_requires(step, (held,)),
    ensures
        match outcome {
            Ok(previous) => previous == counter_value(*old(counter))
                && call_ensures(step, (previous,), Some(counter_value(*final(counter)))),
            Err(previous) => previous == counter_value(*old(counter))
                && call_ensures(step, (previous,), None::<u8>)
                && counter_value(*final(counter)) == previous,
        },
{
    counter.fetch_update(Ordering::AcqRel, Ordering::Acquire, step)
}

} // verus!
