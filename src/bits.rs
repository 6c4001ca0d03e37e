use vstd::prelude::*;

verus! {

/// Fixed-width unsigned integers with their all-ones and all-zeros values.
pub trait BitwiseOps: Copy + Eq {
    const ALL_ONE: Self;
    const ALL_ZERO: Self;
}

impl BitwiseOps for u8 {
    const ALL_ONE: u8 = 0xFF;
    const ALL_ZERO: u8 = 0;
}

impl BitwiseOps for u16 {
    const ALL_ONE: u16 = 0xFFFF;
    const ALL_ZERO: u16 = 0;
}

impl BitwiseOps for u32 {
    const ALL_ONE: u32 = 0xFFFF_FFFF;
    const ALL_ZERO: u32 = 0;
}

impl BitwiseOps for u64 {
    const ALL_ONE: u64 = 0xFFFF_FFFF_FFFF_FFFF;
    const ALL_ZERO: u64 = 0;
}

} // verus!
