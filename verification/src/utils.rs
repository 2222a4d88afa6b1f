//! Sequence-number arithmetic on a ring.
//!
//! Sequence numbers are `u16` / `u32` and wrap around (65535 -> 0), so they
//! cannot be compared with `<`.  Two numbers are compared through the
//! two's-complement distance between them on the ring.
use vstd::prelude::*;

verus! {

/// Distance travelled forward on the 32-bit ring from `from` to `to`.
pub open spec fn ring_dist32(from: u32, to: u32) -> int {
    (to - from) % 0x1_0000_0000
}

/// Distance travelled forward on the 16-bit ring from `from` to `to`.
pub open spec fn ring_dist16(from: u16, to: u16) -> int {
    (to - from) % 0x1_0000
}

/// `lhs` comes strictly before `rhs` on the 32-bit ring: `rhs` lies less than
/// half the ring ahead of `lhs`.
pub open spec fn ring_less32(lhs: u32, rhs: u32) -> bool {
    0 < ring_dist32(lhs, rhs) < 0x8000_0000
}

/// `lhs` comes strictly before `rhs` on the 16-bit ring.
pub open spec fn ring_less16(lhs: u16, rhs: u16) -> bool {
    0 < ring_dist16(lhs, rhs) < 0x8000
}

/// Ring comparison of two 32-bit sequence numbers: is `lhs` before `rhs`?
pub fn wrapping_less(lhs: u32, rhs: u32) -> (r: bool)
    ensures
        r == ring_less32(lhs, rhs),
{
    let d: u32 = rhs.wrapping_sub(lhs);
    assert(d == ring_dist32(lhs, rhs));
    assert((d as i32 > 0) == (0 < d && d < 0x8000_0000u32)) by (bit_vector);
    d as i32 > 0
}

/// Ring comparison of two 16-bit sequence numbers: is `lhs` before `rhs`?
pub fn wrapping_less_u16(lhs: u16, rhs: u16) -> (r: bool)
    ensures
        r == ring_less16(lhs, rhs),
{
    let d: u16 = rhs.wrapping_sub(lhs);
    assert(d == ring_dist16(lhs, rhs));
    assert((d as i16 > 0) == (0 < d && d < 0x8000u16)) by (bit_vector);
    d as i16 > 0
}

/// The earlier of two 32-bit sequence numbers on the ring (`b` unless `a`
/// comes strictly before it).
pub open spec fn ring_min32(a: u32, b: u32) -> u32 {
    if ring_less32(a, b) {
        a
    } else {
        b
    }
}

/// The earlier of two 32-bit sequence numbers on the ring.
pub fn wrapping_min(a: u32, b: u32) -> (r: u32)
    ensures
        r == ring_min32(a, b),
{
    if wrapping_less(a, b) {
        a
    } else {
        b
    }
}

/// No sequence number comes before itself on the 32-bit ring.
pub proof fn lemma_ring_less32_irreflexive(a: u32)
    ensures
        !ring_less32(a, a),
{
}

/// Ring order on 32-bit numbers is asymmetric: if `a` is before `b`, then `b`
/// is not before `a`.
pub proof fn lemma_ring_less32_asymmetric(a: u32, b: u32)
    ensures
        ring_less32(a, b) ==> !ring_less32(b, a),
{
}

/// Two distinct 32-bit numbers that are not exactly half the ring apart are
/// ordered one way or the other.
pub proof fn lemma_ring_less32_total(a: u32, b: u32)
    requires
        a != b,
        ring_dist32(a, b) != 0x8000_0000,
    ensures
        ring_less32(a, b) || ring_less32(b, a),
{
}

/// Shifting both 32-bit numbers by the same amount (with wrap-around) does not
/// change their ring order.
pub proof fn lemma_ring_less32_shift(a: u32, b: u32, k: u32)
    ensures
        ring_less32(
            vstd::wrapping::u32_specs::wrapping_add(a, k),
            vstd::wrapping::u32_specs::wrapping_add(b, k),
        ) == ring_less32(a, b),
{
}

/// No sequence number comes before itself on the 16-bit ring.
pub proof fn lemma_ring_less16_irreflexive(a: u16)
    ensures
        !ring_less16(a, a),
{
}

/// Ring order on 16-bit numbers is asymmetric.
pub proof fn lemma_ring_less16_asymmetric(a: u16, b: u16)
    ensures
        ring_less16(a, b) ==> !ring_less16(b, a),
{
}

/// Two distinct 16-bit numbers that are not exactly half the ring apart are
/// ordered one way or the other.
pub proof fn lemma_ring_less16_total(a: u16, b: u16)
    requires
        a != b,
        ring_dist16(a, b) != 0x8000,
    ensures
        ring_less16(a, b) || ring_less16(b, a),
{
}

/// Shifting both 16-bit numbers by the same amount (with wrap-around) does not
/// change their ring order.
pub proof fn lemma_ring_less16_shift(a: u16, b: u16, k: u16)
    ensures
        ring_less16(
            vstd::wrapping::u16_specs::wrapping_add(a, k),
            vstd::wrapping::u16_specs::wrapping_add(b, k),
        ) == ring_less16(a, b),
{
}

/// The ring minimum of two 32-bit numbers is one of them, and neither
/// argument comes before it.
pub proof fn lemma_wrapping_min_is_least(a: u32, b: u32)
    ensures
        ({
            let m = if ring_less32(a, b) { a } else { b };
            &&& (m == a || m == b)
            &&& !ring_less32(a, m)
            &&& (ring_dist32(a, b) != 0x8000_0000 ==> !ring_less32(b, m))
        }),
{
}

/// Away from the antipodal case, the ring minimum does not depend on the order
/// of its arguments.
pub proof fn lemma_wrapping_min_commutative(a: u32, b: u32)
    requires
        ring_dist32(a, b) != 0x8000_0000,
    ensures
        (if ring_less32(a, b) { a } else { b }) == (if ring_less32(b, a) { b } else { a }),
{
}

/// Ring order by offset on 32 bits: `a + k` (wrapping) comes after `a`
/// exactly when `k` is less than half the ring, and comes before `a` exactly
/// when `k` is more than half the ring.
pub proof fn lemma_ring_less32_by_offset(a: u32, k: u32)
    ensures
        ring_less32(a, vstd::wrapping::u32_specs::wrapping_add(a, k)) <==> 0 < k < 0x8000_0000,
        ring_less32(vstd::wrapping::u32_specs::wrapping_add(a, k), a) <==> 0x8000_0000 < k,
{
}

/// Ring order by offset on 16 bits: `a + k` (wrapping) comes after `a`
/// exactly when `k` is less than half the ring, and comes before `a` exactly
/// when `k` is more than half the ring.
pub proof fn lemma_ring_less16_by_offset(a: u16, k: u16)
    ensures
        ring_less16(a, vstd::wrapping::u16_specs::wrapping_add(a, k)) <==> 0 < k < 0x8000,
        ring_less16(vstd::wrapping::u16_specs::wrapping_add(a, k), a) <==> 0x8000 < k,
{
}

/// The ring minimum of a number and one less than half the ring ahead of it
/// is the number itself, in either argument order.
pub proof fn lemma_wrapping_min_by_offset(a: u32, k: u32)
    requires
        0 < k < 0x8000_0000,
    ensures
        ring_min32(a, vstd::wrapping::u32_specs::wrapping_add(a, k)) == a,
        ring_min32(vstd::wrapping::u32_specs::wrapping_add(a, k), a) == a,
{
}

} // verus!
