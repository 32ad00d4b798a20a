use vstd::bytes::{
    lemma_auto_spec_u64_to_from_le_bytes, spec_u64_from_le_bytes, spec_u64_to_le_bytes,
    spec_u64_to_le_bytes_to_open, u64_to_le_bytes,
};
use vstd::prelude::*;

verus! {

/// The eight bytes of `value`, the least significant first.
pub open spec fn le_bytes(value: u64) -> Seq<u8> {
    seq![
        (value % 0x100) as u8,
        (value / 0x100 % 0x100) as u8,
        (value / 0x1_0000 % 0x100) as u8,
        (value / 0x100_0000 % 0x100) as u8,
        (value / 0x1_0000_0000 % 0x100) as u8,
        (value / 0x100_0000_0000 % 0x100) as u8,
        (value / 0x1_0000_0000_0000 % 0x100) as u8,
        (value / 0x100_0000_0000_0000 % 0x100) as u8,
    ]
}

/// `le_bytes` is the little-endian encoding that `vstd::bytes` defines by
/// shifts and masks.
pub proof fn lemma_le_bytes(value: u64)
    ensures
        spec_u64_to_le_bytes(value) == le_bytes(value),
        le_bytes(value).len() == 8,
        spec_u64_from_le_bytes(le_bytes(value)) == value,
{
    spec_u64_to_le_bytes_to_open(value);
    lemma_auto_spec_u64_to_from_le_bytes();
    assert(value & 0xff == value % 0x100) by (bit_vector);
    assert((value >> 8) & 0xff == value / 0x100 % 0x100) by (bit_vector);
    assert((value >> 16) & 0xff == value / 0x1_0000 % 0x100) by (bit_vector);
    assert((value >> 24) & 0xff == value / 0x100_0000 % 0x100) by (bit_vector);
    assert((value >> 32) & 0xff == value / 0x1_0000_0000 % 0x100) by (bit_vector);
    assert((value >> 40) & 0xff == value / 0x100_0000_0000 % 0x100) by (bit_vector);
    assert((value >> 48) & 0xff == value / 0x1_0000_0000_0000 % 0x100) by (bit_vector);
    assert((value >> 56) & 0xff == value / 0x100_0000_0000_0000 % 0x100) by (bit_vector);
    assert(spec_u64_to_le_bytes(value) =~= le_bytes(value));
}

/// Numbers with the same eight bytes are the same number.
pub proof fn lemma_le_bytes_is_injective(value: u64, other: u64)
    requires
        le_bytes(value) == le_bytes(other),
    ensures
        value == other,
{
    lemma_le_bytes(value);
    lemma_le_bytes(other);
}

/// Encodes `value` as its eight bytes, the least significant first.
pub fn encode_u64(value: u64) -> (bytes: Vec<u8>)
    ensures
        bytes@ == le_bytes(value),
{
    proof {
        lemma_le_bytes(value);
    }
    u64_to_le_bytes(value)
}

/// Appends `bytes` to `out`.
pub fn append(out: &mut Vec<u8>, bytes: &[u8])
    ensures
        final(out)@ == old(out)@ + bytes@,
{
    let mut i: usize = 0;
    while i < bytes.len()
        invariant
            i <= bytes.len(),
            out@ == old(out)@ + bytes@.subrange(0, i as int),
        decreases bytes.len() - i,
    {
        out.push(bytes[i]);
        assert(out@ =~= old(out)@ + bytes@.subrange(0, i + 1));
        i += 1;
    }
    assert(out@ =~= old(out)@ + bytes@);
}

} // verus!
