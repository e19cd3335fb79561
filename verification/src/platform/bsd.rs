//! Request-code layout for BSD-derived systems (the BSDs and the Apple
//! platforms).
//!
//! The layout is fixed, independent of the architecture: the low 8 bits hold
//! the command number, the next 8 bits the group, the next 13 bits the
//! argument size, and the direction is one of three fixed high-order bit
//! patterns that are combined into the word without further shifting.

use vstd::prelude::*;

use crate::Dir;

verus! {

/// Width of the size field.
pub const IOCPARM_SHIFT: u32 = 13;

/// The largest argument size the 13-bit size field can hold:
/// `(1 << IOCPARM_SHIFT) - 1` bytes.
pub const MAX_ARG_SIZE: usize = 0x1fff;

/// Direction pattern: the `ioctl` transfers no data through its argument.
pub const IOC_VOID: u32 = 0x20000000;

/// Direction pattern: the kernel writes data out to userspace.
pub const IOC_OUT: u32 = 0x40000000;

/// Direction pattern: the kernel reads data in from userspace.
pub const IOC_IN: u32 = 0x80000000;

/// The raw bit pattern that stands for a direction. The patterns sit at
/// fixed high-order positions and are already in place; the codec combines
/// them into the request word without shifting.
pub open spec fn dir_value(d: Dir) -> u32 {
    match d {
        Dir::NoData => IOC_VOID,
        Dir::Read => IOC_OUT,
        Dir::Write => IOC_IN,
        Dir::ReadWrite => 0xc0000000,  // IOC_IN | IOC_OUT
    }
}

/// Returns the bit pattern of a direction.
pub fn dir_raw(d: Dir) -> (r: u32)
    ensures
        r == dir_value(d),
{
    match d {
        Dir::NoData => IOC_VOID,
        Dir::Read => IOC_OUT,
        Dir::Write => IOC_IN,
        Dir::ReadWrite => 0xc0000000,
    }
}

/// The packed request word, from a direction pattern, a group, a command
/// number, and the argument size.
pub open spec fn spec_ioc(dir: u32, group: u32, num: u32, len: u32) -> u32 {
    dir | (len << 16) | (group << 8) | num
}

/// Packs a request code in the BSD layout.
#[allow(non_snake_case)]
pub fn _IOC(dir: Dir, group: u32, num: u32, len: u32) -> (r: u32)
    requires
        group <= 0xff,
        num <= 0xff,
        len <= 0x1fff,
    ensures
        r == spec_ioc(dir_value(dir), group, num, len),
{
    let d = dir_raw(dir);
    d | (len << 16) | (group << 8) | num
}

/// Every field of a request word can be read back from its documented bit
/// positions: the packing is exact and loses nothing.
pub proof fn lemma_ioc_fields(dir: u32, group: u32, num: u32, len: u32)
    requires
        dir == IOC_VOID || dir == IOC_OUT || dir == IOC_IN || dir == 0xc0000000,
        group <= 0xff,
        num <= 0xff,
        len <= 0x1fff,
    ensures
        spec_ioc(dir, group, num, len) & 0xff == num,
        (spec_ioc(dir, group, num, len) >> 8) & 0xff == group,
        (spec_ioc(dir, group, num, len) >> 16) & 0x1fff == len,
        spec_ioc(dir, group, num, len) & 0xe0000000 == dir,
{
    assert(spec_ioc(dir, group, num, len) & 0xff == num && (spec_ioc(dir, group, num, len) >> 8)
        & 0xff == group && (spec_ioc(dir, group, num, len) >> 16) & 0x1fff == len && spec_ioc(
        dir,
        group,
        num,
        len,
    ) & 0xe0000000 == dir) by (bit_vector)
        requires
            dir == 0x20000000 || dir == 0x40000000 || dir == 0x80000000 || dir == 0xc0000000,
            group <= 0xff,
            num <= 0xff,
            len <= 0x1fff,
    ;
}

/// The abstract union of two directions matches the bitwise union of their
/// bit patterns, whenever the combination is allowed.
pub proof fn lemma_dir_value_of_join(a: Dir, b: Dir)
    requires
        a.can_combine(b),
    ensures
        dir_value(a.join(b)) == dir_value(a) | dir_value(b),
{
    assert(0x20000000u32 | 0x20000000 == 0x20000000 && 0x40000000u32 | 0x40000000 == 0x40000000
        && 0x80000000u32 | 0x80000000 == 0x80000000 && 0xc0000000u32 | 0xc0000000 == 0xc0000000
        && 0x40000000u32 | 0x80000000 == 0xc0000000 && 0x80000000u32 | 0x40000000 == 0xc0000000
        && 0x40000000u32 | 0xc0000000 == 0xc0000000 && 0xc0000000u32 | 0x40000000 == 0xc0000000
        && 0x80000000u32 | 0xc0000000 == 0xc0000000 && 0xc0000000u32 | 0x80000000 == 0xc0000000)
        by (bit_vector);
}

} // verus!
