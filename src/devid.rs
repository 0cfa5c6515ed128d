use vstd::prelude::*;

verus! {

/// The packed device id of a (major, minor) pair: major in the high 32 bits,
/// minor in the low 32 bits.
pub open spec fn dev_id(major: u32, minor: u32) -> u64 {
    (major as int * 0x1_0000_0000 + minor as int) as u64
}

/// Packs a (major, minor) pair into a 64-bit device id.
pub fn make_dev(major: u32, minor: u32) -> (r: u64)
    ensures
        r as int == major as int * 0x1_0000_0000 + minor as int,
        r == dev_id(major, minor),
{
    let hi = major as u64;
    let lo = minor as u64;
    let r = (hi << 32u64) | lo;
    assert(hi < 0x1_0000_0000 && lo < 0x1_0000_0000 ==> (hi << 32u64) | lo == hi * 0x1_0000_0000 + lo)
        by (bit_vector);
    r
}

/// Distinct (major, minor) pairs never share a device id.
pub proof fn lemma_dev_id_injective(major1: u32, minor1: u32, major2: u32, minor2: u32)
    requires
        dev_id(major1, minor1) == dev_id(major2, minor2),
    ensures
        major1 == major2,
        minor1 == minor2,
{
    let a1 = major1 as int;
    let a2 = major2 as int;
    let b1 = minor1 as int;
    let b2 = minor2 as int;
    assert(0 <= a1 * 0x1_0000_0000 + b1 < 0x1_0000_0000_0000_0000) by (nonlinear_arith)
        requires 0 <= a1 < 0x1_0000_0000, 0 <= b1 < 0x1_0000_0000;
    assert(0 <= a2 * 0x1_0000_0000 + b2 < 0x1_0000_0000_0000_0000) by (nonlinear_arith)
        requires 0 <= a2 < 0x1_0000_0000, 0 <= b2 < 0x1_0000_0000;
    assert(a1 == a2 && b1 == b2) by (nonlinear_arith)
        requires
            a1 * 0x1_0000_0000 + b1 == a2 * 0x1_0000_0000 + b2,
            0 <= b1 < 0x1_0000_0000,
            0 <= b2 < 0x1_0000_0000,
            0 <= a1, 0 <= a2;
}

} // verus!
