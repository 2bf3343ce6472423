//! The clock sequence behind version 7 identifiers: a counter of which the
//! low twelve bits are handed out.

use vstd::prelude::*;

verus! {

/// A clock-sequence counter.
pub struct UuidV7Context {
    counter: u32,
}

impl View for UuidV7Context {
    type V = u32;

    /// The next value of the counter.
    closed spec fn view(&self) -> u32 {
        self.counter
    }
}

/// The sequence number that a counter value stands for: its low twelve
/// bits.
pub open spec fn low_bits(counter: u32) -> u32 {
    counter & 0xFFF
}

/// The counter after one step: it starts over after the largest value.
pub open spec fn next_counter(counter: u32) -> u32 {
    if counter == u32::MAX {
        0
    } else {
        (counter + 1) as u32
    }
}

impl UuidV7Context {
    /// A context that counts from zero.
    pub fn new() -> (ctx: Self)
        ensures
            ctx@ == 0,
    {
        UuidV7Context { counter: 0 }
    }

    /// A context that counts from the low twelve bits of `initial`.
    pub fn with_initial_counter(initial: u32) -> (ctx: Self)
        ensures
            ctx@ == low_bits(initial),
    {
        UuidV7Context { counter: initial & 0xFFF }
    }

    /// Hands out the next sequence number and advances the counter. The
    /// time of the request has no part in it.
    pub fn generate_sequence(&mut self, _seconds: u64, _subsec_nanos: u32) -> (seq: u32)
        ensures
            seq == low_bits(old(self)@),
            final(self)@ == next_counter(old(self)@),
    {
        let current = self.counter;
        self.counter = if current == u32::MAX {
            0
        } else {
            current + 1
        };
        current & 0xFFF
    }

    /// The number of bits of a sequence number.
    pub fn usable_bits(&self) -> (bits: usize)
        ensures
            bits == 12,
    {
        12
    }
}

impl Default for UuidV7Context {
    fn default() -> (ctx: Self)
        ensures
            ctx@ == 0,
    {
        UuidV7Context::new()
    }
}

/// Every sequence number fits in the usable bits.
pub proof fn sequence_fits(counter: u32)
    ensures
        low_bits(counter) < 4096,
{
    assert(counter & 0xFFF < 4096) by (bit_vector);
}

/// A counter that started within twelve bits hands out consecutive numbers
/// until it reaches the largest of them, and then starts over from zero.
pub proof fn sequence_advances(counter: u32)
    requires
        counter < 4096,
    ensures
        low_bits(counter) == counter,
        low_bits(next_counter(counter)) == if counter == 4095 {
            0
        } else {
            counter + 1
        },
{
    let next = next_counter(counter);
    assert(counter < 4096 ==> counter & 0xFFF == counter) by (bit_vector);
    assert(next < 4096 ==> next & 0xFFF == next) by (bit_vector);
    assert(4096u32 & 0xFFF == 0) by (bit_vector);
}

} // verus!
