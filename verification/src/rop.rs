//! Raster-operation codes derived from caller-supplied bit-combination
//! functions, evaluated once on fixed probe bit patterns.

use vstd::prelude::*;

verus! {

/// The first two-input probe value: the pen bits.
pub const ROP2_PEN_PROBE: u8 = 0b1100;

/// The second two-input probe value: the destination bits.
pub const ROP2_DST_PROBE: u8 = 0b1010;

/// The first three-input probe value: the pen mask.
pub const ROP3_PEN_PROBE: u32 = 0xF00000;

/// The second three-input probe value: the source mask.
pub const ROP3_SRC_PROBE: u32 = 0xCC0000;

/// The third three-input probe value: the destination mask.
pub const ROP3_DST_PROBE: u32 = 0xAA0000;

/// Derive the native two-input raster-op code from a combination function:
/// the function's value on the fixed pen and destination probe bits, plus
/// one.
pub fn derive_rop2<F: Fn(u8, u8) -> u8>(gen_rop2: F) -> (r: i32)
    requires
        call_requires(gen_rop2, (ROP2_PEN_PROBE, ROP2_DST_PROBE)),
    ensures
        exists|m: u8|
            call_ensures(gen_rop2, (ROP2_PEN_PROBE, ROP2_DST_PROBE), m) && r == m as i32 + 1,
{
    let mask = gen_rop2(ROP2_PEN_PROBE, ROP2_DST_PROBE);
    mask as i32 + 1
}

/// Derive the native three-input raster-op code from a combination function:
/// the function's value on the fixed pen, source and destination probe
/// masks.
pub fn derive_rop3<F: Fn(u32, u32, u32) -> u32>(gen_rop3: F) -> (r: u32)
    requires
        call_requires(gen_rop3, (ROP3_PEN_PROBE, ROP3_SRC_PROBE, ROP3_DST_PROBE)),
    ensures
        call_ensures(gen_rop3, (ROP3_PEN_PROBE, ROP3_SRC_PROBE, ROP3_DST_PROBE), r),
{
    gen_rop3(ROP3_PEN_PROBE, ROP3_SRC_PROBE, ROP3_DST_PROBE)
}

} // verus!
