//! Conversions between native sample formats.

use vstd::prelude::*;

verus! {

/// A 12-bit sample reduced to its eight most significant bits, in the high
/// byte of a 16-bit word. What does not fit the word is dropped.
pub open spec fn u12_to_u8_spec(sample: u16) -> u16 {
    (((sample as int / 16) * 256) % 65536) as u16
}

/// Reduces the first `length` 12-bit samples of `source` to eight bits each,
/// in the high bytes of the first `length` words of `destination`. The other
/// words of `destination` keep what they held.
pub fn u12_to_u8(source: &[u16], destination: &mut [u16], length: usize)
    requires
        length <= source@.len(),
        length <= old(destination)@.len(),
    ensures
        final(destination)@.len() == old(destination)@.len(),
        forall|i: int| 0 <= i < length ==> final(destination)@[i] == u12_to_u8_spec(source@[i]),
        forall|i: int|
            length <= i < old(destination)@.len() ==> final(destination)@[i] == old(
                destination,
            )@[i],
{
    let mut i: usize = 0;
    while i < length
        invariant
            i <= length,
            length <= source@.len(),
            length <= destination@.len(),
            destination@.len() == old(destination)@.len(),
            forall|j: int| 0 <= j < i ==> destination@[j] == u12_to_u8_spec(source@[j]),
            forall|j: int| i <= j < destination@.len() ==> destination@[j] == old(destination)@[j],
        decreases length - i,
    {
        let sample: u16 = source[i];
        let reduced: u16 = ((sample as u32 * 256 / 4096) as u16) << 8;
        assert(reduced == (((sample as int / 16) * 256) % 65536) as u16) by (bit_vector)
            requires
                reduced == ((sample as u32 * 256 / 4096) as u16) << 8,
        ;
        destination[i] = reduced;
        i += 1;
    }
}

/// For a sample of twelve bits the reduction keeps its eight most
/// significant bits whole.
pub proof fn lemma_u12_to_u8_in_range(sample: u16)
    requires
        sample <= 4095,
    ensures
        u12_to_u8_spec(sample) == (sample / 16) * 256,
        u12_to_u8_spec(sample) / 256 == sample / 16,
{
}

} // verus!
