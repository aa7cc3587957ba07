//! The key bitmask the host reports: bit 0 is A, bit 1 is S, bit 2 is D,
//! bit 3 is W and bit 4 is space. A set bit means the key is held down.
use vstd::prelude::*;

verus! {

/// The set of keys held down, one bit per key.
#[derive(Debug, Clone, Copy, Default, PartialEq, Eq, Structural)]
pub struct KeysSet(pub i32);

/// Whether bit `i` of `bits` is set.
pub open spec fn bit_set(bits: i32, i: u32) -> bool {
    bits & (1i32 << i) != 0
}

impl vstd::std_specs::convert::FromSpecImpl<i32> for KeysSet {
    open spec fn obeys_from_spec() -> bool {
        true
    }

    open spec fn from_spec(v: i32) -> KeysSet {
        KeysSet(v)
    }
}

impl From<i32> for KeysSet {
    /// Wraps a raw bitmask as it is, without reading it.
    fn from(value: i32) -> (r: KeysSet)
        ensures
            r.0 == value,
    {
        KeysSet(value)
    }
}

impl KeysSet {
    pub const A: i32 = 0b0000_0000_0000_0001;
    pub const S: i32 = 0b0000_0000_0000_0010;
    pub const D: i32 = 0b0000_0000_0000_0100;
    pub const W: i32 = 0b0000_0000_0000_1000;
    pub const SPACE: i32 = 0b0000_0000_0001_0000;

    /// The keys in `self` that are not in `other`.
    pub fn diff(&self, other: &KeysSet) -> (r: KeysSet)
        ensures
            r.0 == self.0 & !other.0,
    {
        KeysSet(self.0 & !other.0)
    }

    /// The keys in both `self` and `other`.
    pub fn and(&self, other: &KeysSet) -> (r: KeysSet)
        ensures
            r.0 == self.0 & other.0,
    {
        KeysSet(self.0 & other.0)
    }

    /// The keys in `self`, in `other`, or in both.
    pub fn or(&self, other: &KeysSet) -> (r: KeysSet)
        ensures
            r.0 == self.0 | other.0,
    {
        KeysSet(self.0 | other.0)
    }

    /// Whether any bit at all is set.
    pub fn any(&self) -> (r: bool)
        ensures
            r == (self.0 != 0),
    {
        self.0 != 0
    }

    /// Whether any of the four movement keys W, S, A, D is held.
    pub fn wsad(&self) -> (r: bool)
        ensures
            r == (self.0 & 0b1111 != 0),
            r == (bit_set(self.0, 0) || bit_set(self.0, 1) || bit_set(self.0, 2) || bit_set(
                self.0,
                3,
            )),
    {
        let b = self.0;
        assert((b & 0b1111 != 0) == (bit_set(b, 0) || bit_set(b, 1) || bit_set(b, 2) || bit_set(
            b,
            3,
        ))) by (bit_vector);
        (self.0 & 0b0000_0000_0000_1111) != 0
    }

    /// Whether A is held (bit 0).
    pub fn a(&self) -> (r: bool)
        ensures
            r == bit_set(self.0, 0),
    {
        let b = self.0;
        assert((b & 1 != 0) == bit_set(b, 0)) by (bit_vector);
        (self.0 & Self::A) != 0
    }

    /// Whether S is held (bit 1).
    pub fn s(&self) -> (r: bool)
        ensures
            r == bit_set(self.0, 1),
    {
        let b = self.0;
        assert((b & 2 != 0) == bit_set(b, 1)) by (bit_vector);
        (self.0 & Self::S) != 0
    }

    /// Whether D is held (bit 2).
    pub fn d(&self) -> (r: bool)
        ensures
            r == bit_set(self.0, 2),
    {
        let b = self.0;
        assert((b & 4 != 0) == bit_set(b, 2)) by (bit_vector);
        (self.0 & Self::D) != 0
    }

    /// Whether W is held (bit 3).
    pub fn w(&self) -> (r: bool)
        ensures
            r == bit_set(self.0, 3),
    {
        let b = self.0;
        assert((b & 8 != 0) == bit_set(b, 3)) by (bit_vector);
        (self.0 & Self::W) != 0
    }

    /// Whether space is held (bit 4).
    pub fn space(&self) -> (r: bool)
        ensures
            r == bit_set(self.0, 4),
    {
        let b = self.0;
        assert((b & 16 != 0) == bit_set(b, 4)) by (bit_vector);
        (self.0 & Self::SPACE) != 0
    }
}

/// Key by key, `diff`, `and` and `or` are set difference, intersection and union.
pub proof fn lemma_set_algebra(a: i32, b: i32, i: u32)
    requires
        0 <= i < 32,
    ensures
        bit_set(a & !b, i) == (bit_set(a, i) && !bit_set(b, i)),
        bit_set(a & b, i) == (bit_set(a, i) && bit_set(b, i)),
        bit_set(a | b, i) == (bit_set(a, i) || bit_set(b, i)),
{
    assert(bit_set(a & !b, i) == (bit_set(a, i) && !bit_set(b, i))) by (bit_vector)
        requires
            0 <= i < 32,
    ;
    assert(bit_set(a & b, i) == (bit_set(a, i) && bit_set(b, i))) by (bit_vector)
        requires
            0 <= i < 32,
    ;
    assert(bit_set(a | b, i) == (bit_set(a, i) || bit_set(b, i))) by (bit_vector)
        requires
            0 <= i < 32,
    ;
}

} // verus!
