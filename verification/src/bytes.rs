//! Small verified helpers for moving bytes between buffers, and the
//! big-endian form of a 16-bit port.

use vstd::prelude::*;

verus! {

/// The 16-bit value whose big-endian form is `hi`, `lo`.
pub open spec fn be16(hi: u8, lo: u8) -> u16 {
    (hi as int * 256 + lo as int) as u16
}

/// The two bytes of `value`, most significant first.
pub open spec fn be16_bytes(value: u16) -> Seq<u8> {
    seq![(value / 256) as u8, (value % 256) as u8]
}

/// Splitting a 16-bit value into its two bytes and joining them again changes
/// nothing, in either direction.
pub proof fn lemma_be16_round_trip(value: u16, hi: u8, lo: u8)
    ensures
        be16_bytes(value).len() == 2,
        be16(be16_bytes(value)[0], be16_bytes(value)[1]) == value,
        be16_bytes(be16(hi, lo)) =~= seq![hi, lo],
{
}

/// Reads the big-endian 16-bit value at `buffer[at..at + 2]`.
pub fn read_be16(buffer: &[u8], at: usize) -> (value: u16)
    requires
        at + 2 <= buffer@.len(),
    ensures
        value == be16(buffer@[at as int], buffer@[at + 1]),
{
    let hi: u16 = buffer[at] as u16;
    let lo: u16 = buffer[at + 1] as u16;
    hi * 256 + lo
}

/// Appends the big-endian form of `value` to `out`.
pub fn push_be16(out: &mut Vec<u8>, value: u16)
    ensures
        final(out)@ == old(out)@ + be16_bytes(value),
{
    out.push((value / 256) as u8);
    out.push((value % 256) as u8);
    assert(out@ =~= old(out)@ + be16_bytes(value));
}

/// Copies `buffer[from..to]` into a new vector.
pub fn copy_range(buffer: &[u8], from: usize, to: usize) -> (copy: Vec<u8>)
    requires
        from <= to <= buffer@.len(),
    ensures
        copy@ == buffer@.subrange(from as int, to as int),
{
    let mut copy: Vec<u8> = Vec::new();
    let mut i: usize = from;
    while i < to
        invariant
            from <= i <= to <= buffer@.len(),
            copy@ == buffer@.subrange(from as int, i as int),
        decreases to - i,
    {
        copy.push(buffer[i]);
        i += 1;
        assert(copy@ =~= buffer@.subrange(from as int, i as int));
    }
    copy
}

/// Appends all of `bytes` to `out`.
pub fn append(out: &mut Vec<u8>, bytes: &[u8])
    ensures
        final(out)@ == old(out)@ + bytes@,
{
    let mut i: usize = 0;
    while i < bytes.len()
        invariant
            i <= bytes@.len(),
            out@ == old(out)@ + bytes@.subrange(0, i as int),
        decreases bytes@.len() - i,
    {
        out.push(bytes[i]);
        i += 1;
        assert(out@ =~= old(out)@ + bytes@.subrange(0, i as int));
    }
    assert(bytes@.subrange(0, i as int) =~= bytes@);
}

} // verus!
