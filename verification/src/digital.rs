//! The GPIO bank: pins, the waits on them, and the bank's interrupt handler.
//!
//! Every pin has four interrupt conditions. Their status and enable bits
//! stand side by side, eight pins to a word, one set of words for each core.

pub mod wait_for_any_edge;
pub mod wait_for_edge;
pub mod wait_for_level;

use crate::completion::{State, Wait};
use crate::digital::wait_for_any_edge::{both_edges, WaitForAnyEdge};
use crate::digital::wait_for_edge::{Edge, WaitForEdge};
use crate::digital::wait_for_level::{Level, WaitForLevel};
use crate::waker::WakerRegistry;
use crate::{IntoAsync, NUM_CORES};
use vstd::prelude::*;

verus! {

/// Number of pins of the bank.
pub const NUM_PINS: usize = 48;

/// Number of pins whose bits share one register word.
pub const PINS_PER_WORD: usize = 8;

/// Number of status words, and of enable words, that the bank has for a core.
pub const NUM_WORDS: usize = 6;

/// One of the four conditions on which a pin raises the bank's interrupt.
#[derive(Clone, Copy, Debug, PartialEq, Eq, Structural)]
pub enum Interrupt {
    /// While the pin is low.
    LevelLow,
    /// While the pin is high.
    LevelHigh,
    /// On a falling edge.
    EdgeLow,
    /// On a rising edge.
    EdgeHigh,
}

impl Interrupt {
    /// The condition's bit among the four of a pin.
    pub open spec fn spec_mask(self) -> u32 {
        match self {
            Interrupt::LevelLow => 0b0001,
            Interrupt::LevelHigh => 0b0010,
            Interrupt::EdgeLow => 0b0100,
            Interrupt::EdgeHigh => 0b1000,
        }
    }

    /// The condition's bit among the four of a pin.
    #[verifier::when_used_as_spec(spec_mask)]
    pub fn mask(self) -> (mask: u32)
        ensures
            mask == self.spec_mask(),
    {
        match self {
            Interrupt::LevelLow => 0b0001,
            Interrupt::LevelHigh => 0b0010,
            Interrupt::EdgeLow => 0b0100,
            Interrupt::EdgeHigh => 0b1000,
        }
    }
}

/// Index of the register word that holds the bits of `pin`.
pub open spec fn word_of(pin: int) -> int {
    pin / 8
}

/// Position of the lowest of the four bits of `pin` in its word.
pub open spec fn shift_of(pin: int) -> u32 {
    (4 * (pin % 8)) as u32
}

/// The four bits `events` moved to the place of `pin` in its word.
pub open spec fn event_bits(pin: int, events: u32) -> u32 {
    (events & 0xf) << shift_of(pin)
}

/// The four bits at place `k` of `word`.
pub open spec fn events_at(word: u32, k: int) -> u32 {
    (word >> ((4 * k) as u32)) & 0xf
}

/// Whether the status words `ints` show an event of `pin`.
pub open spec fn fired(ints: Seq<u32>, pin: int) -> bool {
    events_at(ints[word_of(pin)], pin % 8) != 0
}

/// A pin of the bank that is configured as an input.
#[derive(Clone, Copy, Debug)]
pub struct Pin {
    id: u8,
}

impl Pin {
    #[verifier::type_invariant]
    spec fn in_bank(self) -> bool {
        self.id < NUM_PINS
    }

    /// The pin's number in the bank.
    pub closed spec fn number(self) -> int {
        self.id as int
    }

    /// The pin with the number `id`, if the bank has it.
    pub fn new(id: u8) -> (pin: Option<Pin>)
        ensures
            pin is Some <==> id < NUM_PINS,
            pin matches Some(p) ==> p.number() == id,
    {
        if (id as usize) < NUM_PINS {
            Some(Pin { id })
        } else {
            None
        }
    }

    /// The pin's number in the bank.
    pub fn id(&self) -> (id: u8)
        ensures
            id == self.number(),
            id < NUM_PINS,
    {
        proof {
            use_type_invariant(self);
        }
        self.id
    }

    /// Index of the status word, and of the enable word, with the pin's bits.
    pub fn word(&self) -> (word: usize)
        ensures
            word == word_of(self.number()),
            word < NUM_WORDS,
    {
        proof {
            use_type_invariant(self);
        }
        (self.id as usize) / PINS_PER_WORD
    }

    /// The four bits `events` at the pin's place in its word.
    pub fn bits(&self, events: u32) -> (bits: u32)
        ensures
            bits == event_bits(self.number(), events),
    {
        proof {
            use_type_invariant(self);
        }
        let shift: u32 = 4 * ((self.id as u32) % 8);
        (events & 0xf) << shift
    }
}

/// An input pin whose level and edges can be waited for.
pub struct AsyncInputPin {
    pin: Pin,
}

impl AsyncInputPin {
    /// The pin.
    pub closed spec fn pin(&self) -> Pin {
        self.pin
    }

    /// The awaitable form of `pin`.
    pub fn new(pin: Pin) -> (input: AsyncInputPin)
        ensures
            input.pin() == pin,
    {
        AsyncInputPin { pin }
    }

    /// The pin.
    pub fn input(&self) -> (pin: Pin)
        ensures
            pin == self.pin(),
    {
        self.pin
    }

    /// A wait for the pin to be high.
    pub fn wait_for_high(&mut self) -> (wait: WaitForLevel<'_>)
        ensures
            final(self).pin() == old(self).pin(),
            wait.pin() == old(self).pin(),
            wait.level() == Level::High,
            wait@ == (Wait {
                bits: event_bits(old(self).pin().number(), Interrupt::LevelHigh.mask()),
                state: State::Fresh,
            }),
    {
        WaitForLevel::new(self.pin, Level::High)
    }

    /// A wait for the pin to be low.
    pub fn wait_for_low(&mut self) -> (wait: WaitForLevel<'_>)
        ensures
            final(self).pin() == old(self).pin(),
            wait.pin() == old(self).pin(),
            wait.level() == Level::Low,
            wait@ == (Wait {
                bits: event_bits(old(self).pin().number(), Interrupt::LevelLow.mask()),
                state: State::Fresh,
            }),
    {
        WaitForLevel::new(self.pin, Level::Low)
    }

    /// A wait for the next rising edge of the pin.
    pub fn wait_for_rising_edge(&mut self) -> (wait: WaitForEdge<'_>)
        ensures
            final(self).pin() == old(self).pin(),
            wait.pin() == old(self).pin(),
            wait.edge() == Edge::Rising,
            wait@ == (Wait {
                bits: event_bits(old(self).pin().number(), Interrupt::EdgeHigh.mask()),
                state: State::Fresh,
            }),
    {
        WaitForEdge::new(self.pin, Edge::Rising)
    }

    /// A wait for the next falling edge of the pin.
    pub fn wait_for_falling_edge(&mut self) -> (wait: WaitForEdge<'_>)
        ensures
            final(self).pin() == old(self).pin(),
            wait.pin() == old(self).pin(),
            wait.edge() == Edge::Falling,
            wait@ == (Wait {
                bits: event_bits(old(self).pin().number(), Interrupt::EdgeLow.mask()),
                state: State::Fresh,
            }),
    {
        WaitForEdge::new(self.pin, Edge::Falling)
    }

    /// A wait for the next edge of the pin, rising or falling.
    pub fn wait_for_any_edge(&mut self) -> (wait: WaitForAnyEdge<'_>)
        ensures
            final(self).pin() == old(self).pin(),
            wait.pin() == old(self).pin(),
            wait@ == (Wait {
                bits: event_bits(old(self).pin().number(), both_edges()),
                state: State::Fresh,
            }),
    {
        WaitForAnyEdge::new(self.pin)
    }
}

impl IntoAsync for Pin {
    type Target = AsyncInputPin;

    fn into_async(self) -> (input: AsyncInputPin)
        ensures
            input.pin() == self,
    {
        AsyncInputPin::new(self)
    }
}

/// What the four bits at place `k` of the clearing mask are for the status
/// word `word`: all four where the pin at that place shows an event.
pub open spec fn quiesce_at(word: u32, k: int) -> u32 {
    if events_at(word, k) != 0 {
        0xf
    } else {
        0
    }
}

proof fn lemma_mark_place(mask: u32, k: u32, j: u32)
    by (bit_vector)
    requires
        k < 8,
        j < 8,
    ensures
        ((mask | (0xfu32 << (4 * k))) >> (4 * j)) & 0xf == (if j == k {
            0xfu32
        } else {
            (mask >> (4 * j)) & 0xf
        }),
        (0u32 >> (4 * j)) & 0xf == 0,
{
}

proof fn lemma_place(events: u32, k: u32, j: u32)
    by (bit_vector)
    requires
        k < 8,
        j < 8,
    ensures
        (((events & 0xf) << (4 * k)) >> (4 * j)) & 0xf == (if j == k {
            events & 0xf
        } else {
            0u32
        }),
{
}

/// The bits of a pin sit at the pin's place and nowhere else: the enable
/// bits of `events` of `pin` show as `events` at the place of the pin in its
/// word, and as nothing at the place of any other pin of the word.
pub proof fn lemma_event_bits_sit_at_place(pin: int, events: u32, k: int)
    requires
        0 <= pin < NUM_PINS,
        0 <= k < PINS_PER_WORD,
    ensures
        events_at(event_bits(pin, events), k) == (if k == pin % 8 {
            events & 0xf
        } else {
            0u32
        }),
{
    lemma_place(events, (pin % 8) as u32, k as u32);
}

proof fn lemma_place_covers(clear: u32, events: u32, k: u32)
    by (bit_vector)
    requires
        k < 8,
        (clear >> (4 * k)) & 0xf == 0xf,
    ensures
        clear & ((events & 0xf) << (4 * k)) == (events & 0xf) << (4 * k),
{
}

/// The handler quiesces what a wait armed: a clearing mask that has all four
/// bits at the place of `pin`, as the handler's has for a pin with an event,
/// covers the enable bits of every interrupt condition of that pin.
pub proof fn lemma_served_pin_is_quiesced(clear: u32, pin: int, events: u32)
    requires
        0 <= pin < NUM_PINS,
        events_at(clear, pin % 8) == 0xf,
    ensures
        clear & event_bits(pin, events) == event_bits(pin, events),
{
    lemma_place_covers(clear, events, (pin % 8) as u32);
}

proof fn lemma_places_make_word(a: u32, b: u32)
    by (bit_vector)
    requires
        (a >> 0) & 0xf == (b >> 0) & 0xf,
        (a >> 4) & 0xf == (b >> 4) & 0xf,
        (a >> 8) & 0xf == (b >> 8) & 0xf,
        (a >> 12) & 0xf == (b >> 12) & 0xf,
        (a >> 16) & 0xf == (b >> 16) & 0xf,
        (a >> 20) & 0xf == (b >> 20) & 0xf,
        (a >> 24) & 0xf == (b >> 24) & 0xf,
        (a >> 28) & 0xf == (b >> 28) & 0xf,
    ensures
        a == b,
{
}

/// A word is what its eight places hold: two words that agree at every
/// place are the same word, so the places of a clearing mask fix the mask.
pub proof fn lemma_places_fix_word(a: u32, b: u32)
    requires
        forall|k: int| 0 <= k < PINS_PER_WORD ==> events_at(a, k) == events_at(b, k),
    ensures
        a == b,
{
    assert(events_at(a, 0) == events_at(b, 0));
    assert(events_at(a, 1) == events_at(b, 1));
    assert(events_at(a, 2) == events_at(b, 2));
    assert(events_at(a, 3) == events_at(b, 3));
    assert(events_at(a, 4) == events_at(b, 4));
    assert(events_at(a, 5) == events_at(b, 5));
    assert(events_at(a, 6) == events_at(b, 6));
    assert(events_at(a, 7) == events_at(b, 7));
    lemma_places_make_word(a, b);
}

/// The clearing mask for one status word, and the wake-ups that go with it:
/// every pin of word `i` that shows an event gets all four of its bits into
/// the mask and has the task that waits for it on `core` woken.
fn serve_word(wakers: &mut WakerRegistry<NUM_PINS>, core: usize, i: usize, word: u32) -> (mask: u32)
    requires
        core < NUM_CORES,
        i < NUM_WORDS,
    ensures
        forall|k: int|
            0 <= k < PINS_PER_WORD ==> #[trigger] events_at(mask, k) == quiesce_at(word, k),
        forall|k: int|
            0 <= k < PINS_PER_WORD ==> #[trigger] final(wakers).waiting(core as int, i * 8 + k) == (
            if events_at(word, k) != 0 {
                None
            } else {
                old(wakers).waiting(core as int, i * 8 + k)
            }),
        forall|c: int, pin: int|
            WakerRegistry::<NUM_PINS>::has(c, pin) && !(c == core && word_of(pin) == i)
                ==> #[trigger] final(wakers).waiting(c, pin) == old(wakers).waiting(c, pin),
{
    let mut mask: u32 = 0;
    let mut k: usize = 0;
    proof {
        assert forall|j: int| 0 <= j < PINS_PER_WORD implies #[trigger] events_at(0, j) == 0 by {
            lemma_mark_place(0, 0, j as u32);
        }
    }
    while k < PINS_PER_WORD
        invariant
            core < NUM_CORES,
            i < NUM_WORDS,
            k <= PINS_PER_WORD,
            forall|j: int| 0 <= j < k ==> #[trigger] events_at(mask, j) == quiesce_at(word, j),
            forall|j: int| k <= j < PINS_PER_WORD ==> #[trigger] events_at(mask, j) == 0,
            forall|j: int|
                0 <= j < k ==> #[trigger] wakers.waiting(core as int, i * 8 + j) == (if events_at(
                    word,
                    j,
                ) != 0 {
                    None
                } else {
                    old(wakers).waiting(core as int, i * 8 + j)
                }),
            forall|j: int|
                k <= j < PINS_PER_WORD ==> #[trigger] wakers.waiting(core as int, i * 8 + j)
                    == old(wakers).waiting(core as int, i * 8 + j),
            forall|c: int, pin: int|
                WakerRegistry::<NUM_PINS>::has(c, pin) && !(c == core && word_of(pin) == i)
                    ==> #[trigger] wakers.waiting(c, pin) == old(wakers).waiting(c, pin),
        decreases PINS_PER_WORD - k,
    {
        let shift: u32 = 4 * (k as u32);
        let event = (word >> shift) & 0xf;
        let ghost before = mask;
        let ghost slots = *wakers;
        if event != 0 {
            mask = mask | (0xfu32 << shift);
            let _ = wakers.wake(core, i * 8 + k);
            proof {
                assert forall|j: int| 0 <= j < PINS_PER_WORD implies #[trigger] events_at(mask, j)
                    == (if j == k {
                    0xfu32
                } else {
                    events_at(before, j)
                }) by {
                    lemma_mark_place(before, k as u32, j as u32);
                }
                assert forall|j: int|
                    0 <= j < PINS_PER_WORD && j != k implies #[trigger] wakers.waiting(
                    core as int,
                    i * 8 + j,
                ) == slots.waiting(core as int, i * 8 + j) by {
                    assert(WakerRegistry::<NUM_PINS>::has(core as int, i * 8 + j));
                }
            }
        }
        k = k + 1;
    }
    mask
}

/// Interrupt handler of the bank on `core`. `ints` are the core's six status
/// words as read. Every pin that shows an event has its four enable bits
/// and its four raw status bits cleared, whichever of them was enabled, and
/// the task that waits for it on this core woken. The answer holds, for each
/// word, the bits to write to the atomic-clear alias of the core's enable
/// word and of the raw status word. Nothing is done for a core that the
/// part does not have.
#[allow(non_snake_case)]
pub fn IO_IRQ_BANK0(
    wakers: &mut WakerRegistry<NUM_PINS>,
    core: usize,
    ints: &[u32; NUM_WORDS],
) -> (clear: [u32; NUM_WORDS])
    ensures
        core < NUM_CORES ==> forall|i: int, k: int|
            0 <= i < NUM_WORDS && 0 <= k < PINS_PER_WORD ==> #[trigger] events_at(clear[i], k)
                == quiesce_at(ints[i], k),
        core >= NUM_CORES ==> forall|i: int| 0 <= i < NUM_WORDS ==> clear[i] == 0,
        forall|c: int, pin: int|
            WakerRegistry::<NUM_PINS>::has(c, pin) ==> #[trigger] final(wakers).waiting(c, pin) == (
            if c == core && fired(ints@, pin) {
                None
            } else {
                old(wakers).waiting(c, pin)
            }),
{
    let mut clear: [u32; NUM_WORDS] = [0u32; NUM_WORDS];
    if core >= NUM_CORES {
        return clear;
    }
    let mut i: usize = 0;
    while i < NUM_WORDS
        invariant
            core < NUM_CORES,
            i <= NUM_WORDS,
            forall|w: int, k: int|
                0 <= w < i && 0 <= k < PINS_PER_WORD ==> #[trigger] events_at(clear[w], k)
                    == quiesce_at(ints[w], k),
            forall|c: int, pin: int|
                WakerRegistry::<NUM_PINS>::has(c, pin) ==> #[trigger] wakers.waiting(c, pin) == (
                if c == core && word_of(pin) < i && fired(ints@, pin) {
                    None
                } else {
                    old(wakers).waiting(c, pin)
                }),
        decreases NUM_WORDS - i,
    {
        let ghost slots = *wakers;
        let mask = serve_word(wakers, core, i, ints[i]);
        clear[i] = mask;
        proof {
            assert forall|c: int, pin: int|
                WakerRegistry::<NUM_PINS>::has(c, pin) implies #[trigger] wakers.waiting(c, pin)
                == (if c == core && word_of(pin) < i + 1 && fired(ints@, pin) {
                None
            } else {
                old(wakers).waiting(c, pin)
            }) by {
                if c == core && word_of(pin) == i {
                    let k = pin % 8;
                    assert(pin == i * 8 + k);
                    assert(wakers.waiting(core as int, i * 8 + k) == (if events_at(
                        ints[i as int],
                        k,
                    ) != 0 {
                        None
                    } else {
                        slots.waiting(core as int, i * 8 + k)
                    }));
                }
            }
        }
        i = i + 1;
    }
    clear
}

} // verus!
