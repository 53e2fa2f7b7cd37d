//! Numeric encodings shared by every MIDI data byte.
//!
//! A data byte must keep its high bit clear, or a receiver would take it for a status byte.
//! Wider values are therefore cut into groups of seven bits.
use vstd::prelude::*;

verus! {

/// The low seven bits of `x`: the value a MIDI data byte carries for `x`.
pub open spec fn u7(x: u8) -> u8 {
    (x % 128) as u8
}

/// Bits 7 to 13 of `x`, as a data byte.
pub open spec fn u14_msb(x: u16) -> u8 {
    ((x / 128) % 128) as u8
}

/// Bits 0 to 6 of `x`, as a data byte.
pub open spec fn u14_lsb(x: u16) -> u8 {
    (x % 128) as u8
}

/// Every byte of `data` reduced to its low seven bits, in order.
pub open spec fn masked(data: Seq<u8>) -> Seq<u8> {
    Seq::new(data.len(), |i: int| u7(data[i]))
}

/// Whether every byte of `s` has its high bit clear.
pub open spec fn seven_bit(s: Seq<u8>) -> bool {
    forall|i: int| 0 <= i < s.len() ==> #[trigger] s[i] <= 127
}

/// Masking is the same as clearing bit 7; it never leaves the data range,
/// and leaves a byte that is already in that range as it is.
pub proof fn lemma_u7(x: u8)
    ensures
        u7(x) == x & 0x7f,
        u7(x) <= 127,
        x <= 127 ==> u7(x) == x,
        x >= 128 ==> u7(x) == x - 128,
{
    assert(x & 0x7f == x % 128) by (bit_vector);
}

/// The two halves of a 14-bit split are the shifted and masked bits of the value.
pub proof fn lemma_u14_bits(x: u16)
    ensures
        u14_msb(x) == (x >> 7) & 0x7f,
        u14_lsb(x) == x & 0x7f,
        u14_msb(x) <= 127,
        u14_lsb(x) <= 127,
{
    assert((x >> 7) & 0x7f == (x / 128) % 128) by (bit_vector);
    assert(x & 0x7f == x % 128) by (bit_vector);
}

/// A value of the 14-bit range is recovered from its two halves:
/// the low half, with the high half seven bits above it.
pub proof fn lemma_u14_reassembles(x: u16)
    requires
        x < 0x4000,
    ensures
        (u14_lsb(x) as u16) | ((u14_msb(x) as u16) << 7) == x,
        u14_lsb(x) + 128 * u14_msb(x) == x,
{
    lemma_u14_bits(x);
    let msb: u8 = u14_msb(x);
    let lsb: u8 = u14_lsb(x);
    assert((lsb as u16) | ((msb as u16) << 7) == x) by (bit_vector)
        requires
            x < 0x4000,
            msb == (x >> 7) & 0x7f,
            lsb == x & 0x7f,
    ;
}

/// Outside the 14-bit range the split keeps the low fourteen bits and drops the rest.
pub proof fn lemma_u14_truncates(x: u16)
    ensures
        u14_lsb(x) + 128 * u14_msb(x) == x % 0x4000,
        (u14_lsb(x) as u16) | ((u14_msb(x) as u16) << 7) == x & 0x3fff,
{
    lemma_u14_bits(x);
    let msb: u8 = u14_msb(x);
    let lsb: u8 = u14_lsb(x);
    assert((lsb as u16) | ((msb as u16) << 7) == x & 0x3fff) by (bit_vector)
        requires
            msb == (x >> 7) & 0x7f,
            lsb == x & 0x7f,
    ;
    assert(x & 0x3fff == x % 0x4000) by (bit_vector);
}

/// Masked data has the length of the data, and every byte of it is a data byte.
pub proof fn lemma_masked_seven_bit(data: Seq<u8>)
    ensures
        masked(data).len() == data.len(),
        seven_bit(masked(data)),
{
}

/// Masking changes nothing in data that holds data bytes only.
pub proof fn lemma_masked_keeps_seven_bit(data: Seq<u8>)
    requires
        seven_bit(data),
    ensures
        masked(data) == data,
{
    assert(masked(data) =~= data);
}

/// Data bytes followed by data bytes are data bytes.
pub proof fn lemma_seven_bit_concat(a: Seq<u8>, b: Seq<u8>)
    requires
        seven_bit(a),
        seven_bit(b),
    ensures
        seven_bit(a + b),
{
}

/// Clears the high bit of `x`, so that the result can never be taken for a status byte.
pub fn to_u7(x: u8) -> (r: u8)
    ensures
        r == u7(x),
        r == x & 0x7f,
        r <= 127,
{
    proof {
        lemma_u7(x);
    }
    x & 0x7f
}

/// Splits `x` into two data bytes, the high seven bits first: `[msb, lsb]`.
/// Bits above the fourteenth are dropped.
pub fn to_u14(x: u16) -> (r: [u8; 2])
    ensures
        r@ == seq![u14_msb(x), u14_lsb(x)],
        r[0] == (x >> 7) & 0x7f,
        r[1] == x & 0x7f,
        r[0] <= 127,
        r[1] <= 127,
        x < 0x4000 ==> (r[1] as u16) | ((r[0] as u16) << 7) == x,
        (r[1] as u16) | ((r[0] as u16) << 7) == x & 0x3fff,
{
    proof {
        lemma_u14_bits(x);
        lemma_u14_truncates(x);
        if x < 0x4000 {
            lemma_u14_reassembles(x);
        }
    }
    let msb: u8 = ((x >> 7) & 0x7f) as u8;
    let lsb: u8 = (x & 0x7f) as u8;
    let r: [u8; 2] = [msb, lsb];
    assert(r@ =~= seq![u14_msb(x), u14_lsb(x)]);
    r
}

/// Appends every byte of `data` to `v`, each reduced to its low seven bits.
pub fn extend_masked(data: &[u8], v: &mut Vec<u8>)
    ensures
        final(v)@ == old(v)@ + masked(data@),
{
    let mut i: usize = 0;
    while i < data.len()
        invariant
            i <= data.len(),
            v@ == old(v)@ + masked(data@.take(i as int)),
        decreases data.len() - i,
    {
        v.push(to_u7(data[i]));
        i = i + 1;
        assert(v@ =~= old(v)@ + masked(data@.take(i as int)));
    }
    assert(data@.take(i as int) =~= data@);
}

} // verus!
