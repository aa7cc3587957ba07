//! Two signed 16-bit values carried in one 32-bit word: the mouse delta as
//! the host reports it. Bits 0..16 hold `x`, bits 16..32 hold `y`, each read
//! as a signed 16-bit value.
use vstd::prelude::*;

verus! {

/// A pair of signed 16-bit values, such as the mouse movement since the last poll.
#[derive(Debug, Clone, Copy, Default, PartialEq, Eq, Structural)]
pub struct TwoI16 {
    pub x: i16,
    pub y: i16,
}

/// The low 16 bits of `v`, read as a signed 16-bit value.
pub open spec fn low_half(v: int) -> int {
    let m = v % 0x10000;
    if m >= 0x8000 {
        m - 0x10000
    } else {
        m
    }
}

/// Bits 16..32 of the 32-bit word `v`, read as a signed 16-bit value.
pub open spec fn high_half(v: int) -> int {
    v / 0x10000
}

/// The 32-bit word whose low half is `x` and whose high half is `y`.
pub open spec fn packed_word(x: int, y: int) -> int {
    y * 0x10000 + x % 0x10000
}

impl vstd::std_specs::convert::FromSpecImpl<i32> for TwoI16 {
    open spec fn obeys_from_spec() -> bool {
        true
    }

    open spec fn from_spec(v: i32) -> TwoI16 {
        TwoI16 { x: low_half(v as int) as i16, y: high_half(v as int) as i16 }
    }
}

impl From<i32> for TwoI16 {
    /// Splits a packed word: the low 16 bits become `x`, the high 16 bits `y`.
    fn from(value: i32) -> (r: TwoI16)
        ensures
            r.x as int == low_half(value as int),
            r.y as int == high_half(value as int),
    {
        let x = (value & 0xFFFF) as i16;
        let y = ((value >> 16) & 0xFFFF) as i16;
        assert(x as int == low_half(value as int)) by (bit_vector)
            requires
                x == (value & 0xFFFF) as i16,
        ;
        assert(y as int == high_half(value as int)) by (bit_vector)
            requires
                y == ((value >> 16) & 0xFFFF) as i16,
        ;
        TwoI16 { x, y }
    }
}

impl TwoI16 {
    /// Packs the pair into one word: `x` in the low 16 bits, `y` in the high 16 bits.
    pub fn pack(&self) -> (r: i32)
        ensures
            r as int == packed_word(self.x as int, self.y as int),
    {
        let x = self.x;
        let y = self.y;
        let r = ((y as i32) << 16) | ((x as u16) as i32);
        assert(r as int == packed_word(x as int, y as int)) by (bit_vector)
            requires
                r == ((y as i32) << 16) | ((x as u16) as i32),
        ;
        r
    }
}

/// Splitting a word and packing its halves again gives back the word.
pub proof fn lemma_pack_of_split(v: i32)
    ensures
        packed_word(low_half(v as int), high_half(v as int)) == v as int,
{
    assert(packed_word(low_half(v as int), high_half(v as int)) == v as int) by (bit_vector);
}

/// Packing a pair of signed 16-bit values and splitting the word gives back the pair.
pub proof fn lemma_split_of_pack(x: i16, y: i16)
    ensures
        low_half(packed_word(x as int, y as int)) == x as int,
        high_half(packed_word(x as int, y as int)) == y as int,
{
    assert(low_half(packed_word(x as int, y as int)) == x as int) by (bit_vector);
    assert(high_half(packed_word(x as int, y as int)) == y as int) by (bit_vector);
}

} // verus!
