//! Register accesses the drivers ask for. The drivers compute which
//! register to touch and with what value; the caller performs the access
//! (and the pauses some sequences need between accesses).
use vstd::prelude::*;

verus! {

/// One step of a register sequence.
#[derive(Debug, Clone, Copy, PartialEq, Eq, Structural)]
pub enum RegOp {
    /// Write a 32-bit value.
    Write32 { addr: u64, value: u32 },
    /// Write a byte.
    Write8 { addr: u64, value: u8 },
    /// Read the 32-bit register, replace the bits under `mask` by `value`
    /// (which lies within the mask) and write the result back.
    Modify { addr: u64, mask: u32, value: u32 },
    /// Wait this many microseconds.
    DelayUs { us: u64 },
}

/// What a read-modify-write leaves in a register that held `current`.
pub open spec fn spec_modified(current: u32, mask: u32, value: u32) -> u32 {
    (current & !mask) | value
}

/// The result of a read-modify-write on a register that held `current`.
pub fn modify(current: u32, mask: u32, value: u32) -> (r: u32)
    ensures
        r == spec_modified(current, mask, value),
{
    (current & !mask) | value
}

/// A register read and the bit of interest in it.
#[derive(Debug, Clone, Copy, PartialEq, Eq, Structural)]
pub struct RegTest {
    pub addr: u64,
    pub mask: u32,
}

impl RegTest {
    /// Whether the bit is set in the value read.
    pub fn is_set(&self, value: u32) -> (b: bool)
        ensures
            b == (value & self.mask != 0),
    {
        value & self.mask != 0
    }
}

/// Bit `j` of `w` is set.
pub open spec fn bit_of(w: u32, j: u32) -> bool {
    (w >> j) & 1u32 == 1u32
}

/// Replacing a 3-bit field puts the new value there and keeps every bit
/// outside the field.
pub proof fn lemma_modify_field3(current: u32, shift: u32, v: u32)
    requires
        shift <= 29,
        v < 8,
    ensures
        (spec_modified(current, 7u32 << shift, v << shift) >> shift) & 7u32 == v,
        forall|j: u32| j < 32 && !(shift <= j < shift + 3) ==> #[trigger] bit_of(spec_modified(current, 7u32 << shift, v << shift), j) == bit_of(current, j),
{
    assert((((current & !(7u32 << shift)) | (v << shift)) >> shift) & 7u32 == v) by (bit_vector)
        requires shift <= 29, v < 8;
    assert forall|j: u32| j < 32 && !(shift <= j < shift + 3) implies #[trigger] bit_of(spec_modified(current, 7u32 << shift, v << shift), j) == bit_of(current, j) by {
        assert(((((current & !(7u32 << shift)) | (v << shift)) >> j) & 1u32) == ((current >> j) & 1u32)) by (bit_vector)
            requires shift <= 29, v < 8, j < 32, !(shift <= j && j < shift + 3);
    }
}

/// Replacing a 2-bit field puts the new value there and keeps every bit
/// outside the field.
pub proof fn lemma_modify_field2(current: u32, shift: u32, v: u32)
    requires
        shift <= 30,
        v < 4,
    ensures
        (spec_modified(current, 3u32 << shift, v << shift) >> shift) & 3u32 == v,
        forall|j: u32| j < 32 && !(shift <= j < shift + 2) ==> #[trigger] bit_of(spec_modified(current, 3u32 << shift, v << shift), j) == bit_of(current, j),
{
    assert((((current & !(3u32 << shift)) | (v << shift)) >> shift) & 3u32 == v) by (bit_vector)
        requires shift <= 30, v < 4;
    assert forall|j: u32| j < 32 && !(shift <= j < shift + 2) implies #[trigger] bit_of(spec_modified(current, 3u32 << shift, v << shift), j) == bit_of(current, j) by {
        assert(((((current & !(3u32 << shift)) | (v << shift)) >> j) & 1u32) == ((current >> j) & 1u32)) by (bit_vector)
            requires shift <= 30, v < 4, j < 32, !(shift <= j && j < shift + 2);
    }
}

/// Clearing (`v == 0`) or setting (`v == 1 << b`) bit `b` changes that
/// bit only.
pub proof fn lemma_modify_bit(current: u32, b: u32, v: u32)
    requires
        b < 32,
        v == 0 || v == 1u32 << b,
    ensures
        bit_of(spec_modified(current, 1u32 << b, v), b) == (v != 0),
        forall|j: u32| j < 32 && j != b ==> #[trigger] bit_of(spec_modified(current, 1u32 << b, v), j) == bit_of(current, j),
{
    assert(((((current & !(1u32 << b)) | v) >> b) & 1u32 == 1u32) == (v != 0)) by (bit_vector)
        requires b < 32, v == 0 || v == 1u32 << b;
    assert forall|j: u32| j < 32 && j != b implies #[trigger] bit_of(spec_modified(current, 1u32 << b, v), j) == bit_of(current, j) by {
        assert(((((current & !(1u32 << b)) | v) >> j) & 1u32) == ((current >> j) & 1u32)) by (bit_vector)
            requires b < 32, j < 32, j != b, v == 0 || v == 1u32 << b;
    }
}

} // verus!
