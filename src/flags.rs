use vstd::prelude::*;

verus! {

/// The six processor flags that instructions can read and change.
#[derive(Clone, Copy, Debug, PartialEq, Eq, Structural)]
pub enum Flag {
    Carry,
    Zero,
    InterruptDisable,
    Decimal,
    Overflow,
    Negative,
}

/// Bits 4 and 5 of the status byte: the break and unused bits, which always read as set.
pub const RESERVED_BITS: u8 = 0x30;

/// The bit that a flag occupies in the status byte (layout NV11DIZC).
pub open spec fn spec_mask(f: Flag) -> u8 {
    match f {
        Flag::Carry => 0x01,
        Flag::Zero => 0x02,
        Flag::InterruptDisable => 0x04,
        Flag::Decimal => 0x08,
        Flag::Overflow => 0x40,
        Flag::Negative => 0x80,
    }
}

pub fn mask(f: Flag) -> (r: u8)
    ensures
        r == spec_mask(f),
{
    match f {
        Flag::Carry => 0x01,
        Flag::Zero => 0x02,
        Flag::InterruptDisable => 0x04,
        Flag::Decimal => 0x08,
        Flag::Overflow => 0x40,
        Flag::Negative => 0x80,
    }
}

/// Whether flag `f` is set in status byte `p`.
pub open spec fn flag(p: u8, f: Flag) -> bool {
    p & spec_mask(f) != 0
}

/// Status byte `p` with flag `f` set to `v` and every other bit kept.
pub open spec fn with_flag(p: u8, f: Flag, v: bool) -> u8 {
    if v {
        p | spec_mask(f)
    } else {
        p & !spec_mask(f)
    }
}

/// A status byte is well formed when its two reserved bits are set.
pub open spec fn status_ok(p: u8) -> bool {
    p & RESERVED_BITS == RESERVED_BITS
}

proof fn lemma_bits(p: u8, m: u8, n: u8)
    by (bit_vector)
    requires
        m & n == 0,
        m != 0,
    ensures
        (p | m) & m != 0,
        (p & !m) & m == 0,
        (p | m) & n == p & n,
        (p & !m) & n == p & n,
{
}

proof fn lemma_masks_disjoint(f: Flag, g: Flag)
    requires
        f != g,
    ensures
        spec_mask(f) & spec_mask(g) == 0,
        spec_mask(f) & RESERVED_BITS == 0,
        spec_mask(f) != 0,
{
    let a = spec_mask(f);
    let b = spec_mask(g);
    assert(a == 1u8 || a == 2u8 || a == 4u8 || a == 8u8 || a == 0x40u8 || a == 0x80u8);
    assert(b == 1u8 || b == 2u8 || b == 4u8 || b == 8u8 || b == 0x40u8 || b == 0x80u8);
    assert(a != b);
    assert((a == 1u8 || a == 2u8 || a == 4u8 || a == 8u8 || a == 0x40u8 || a == 0x80u8) && (b
        == 1u8 || b == 2u8 || b == 4u8 || b == 8u8 || b == 0x40u8 || b == 0x80u8) && a != b
        ==> a & b == 0 && a & 0x30 == 0 && a != 0) by (bit_vector);
}

/// Changing one flag changes that flag alone, and keeps the reserved bits.
pub proof fn lemma_with_flag(p: u8, f: Flag, v: bool)
    ensures
        flag(with_flag(p, f, v), f) == v,
        forall|g: Flag| g != f ==> flag(#[trigger] with_flag(p, f, v), g) == flag(p, g),
        status_ok(p) ==> status_ok(with_flag(p, f, v)),
{
    let m = spec_mask(f);
    let other = if f == Flag::Carry { Flag::Zero } else { Flag::Carry };
    lemma_masks_disjoint(f, other);
    lemma_bits(p, m, RESERVED_BITS);
    assert forall|g: Flag| g != f implies flag(#[trigger] with_flag(p, f, v), g) == flag(p, g) by {
        lemma_masks_disjoint(f, g);
        lemma_bits(p, m, spec_mask(g));
    }
}

} // verus!
