//! Request-code layout for Linux and Android.
//!
//! The 32-bit request word is split, from the least significant bit up, into
//! a command number, a type identifying the driver or subsystem, the byte
//! size of the argument, and the direction. Number and type are always 8
//! bits wide; the widths of the size and direction fields differ between two
//! architecture groups:
//!
//! - the generic encoding (x86, arm, riscv, ...): 14-bit size, 2-bit
//!   direction, with none = 0, write = 1, read = 2;
//! - the divergent encoding (powerpc, sparc, mips): 13-bit size, 3-bit
//!   direction, with none = 1, read = 2, write = 4.
//!
//! The four field widths sum to 32 in both groups, and each shift is the sum
//! of the widths of the narrower fields below it.

use vstd::prelude::*;

use crate::Dir;

verus! {

pub const _IOC_NRBITS: u32 = 8;
pub const _IOC_TYPEBITS: u32 = 8;

/// Width of the size field in the generic encoding.
pub const _IOC_SIZEBITS: u32 = 14;
/// Width of the direction field in the generic encoding.
pub const _IOC_DIRBITS: u32 = 2;

pub const _IOC_NRSHIFT: u32 = 0;
pub const _IOC_TYPESHIFT: u32 = _IOC_NRSHIFT + _IOC_NRBITS;
pub const _IOC_SIZESHIFT: u32 = _IOC_TYPESHIFT + _IOC_TYPEBITS;
pub const _IOC_DIRSHIFT: u32 = _IOC_SIZESHIFT + _IOC_SIZEBITS;

/// Raw direction values of the generic encoding.
pub const _IOC_NONE: u32 = 0;
pub const _IOC_WRITE: u32 = 1;
pub const _IOC_READ: u32 = 2;

/// Width of the size field in the divergent encoding.
pub const _IOC_SIZEBITS_ALT: u32 = 13;
/// Width of the direction field in the divergent encoding.
pub const _IOC_DIRBITS_ALT: u32 = 3;

pub const _IOC_DIRSHIFT_ALT: u32 = _IOC_SIZESHIFT + _IOC_SIZEBITS_ALT;

/// Raw direction values of the divergent encoding. Note that "none" is not
/// the all-zero pattern here.
pub const _IOC_NONE_ALT: u32 = 1;
pub const _IOC_READ_ALT: u32 = 2;
pub const _IOC_WRITE_ALT: u32 = 4;

/// The largest argument size that can be portably encoded: the size field is
/// only 13 bits wide on the divergent architectures, so the portable bound
/// is `(1 << 13) - 1` bytes.
pub const MAX_ARG_SIZE: usize = 0x1fff;

/// The raw bit pattern that stands for a direction in the generic encoding.
pub open spec fn dir_value(d: Dir) -> u32 {
    match d {
        Dir::NoData => _IOC_NONE,
        Dir::Read => _IOC_READ,
        Dir::Write => _IOC_WRITE,
        Dir::ReadWrite => 3,  // _IOC_READ | _IOC_WRITE
    }
}

/// The raw bit pattern that stands for a direction in the divergent
/// encoding.
pub open spec fn dir_value_alt(d: Dir) -> u32 {
    match d {
        Dir::NoData => _IOC_NONE_ALT,
        Dir::Read => _IOC_READ_ALT,
        Dir::Write => _IOC_WRITE_ALT,
        Dir::ReadWrite => 6,  // _IOC_READ_ALT | _IOC_WRITE_ALT
    }
}

/// Returns the generic-encoding bit pattern of a direction.
pub fn dir_raw(d: Dir) -> (r: u32)
    ensures
        r == dir_value(d),
{
    match d {
        Dir::NoData => _IOC_NONE,
        Dir::Read => _IOC_READ,
        Dir::Write => _IOC_WRITE,
        Dir::ReadWrite => 3,
    }
}

/// Returns the divergent-encoding bit pattern of a direction.
pub fn dir_raw_alt(d: Dir) -> (r: u32)
    ensures
        r == dir_value_alt(d),
{
    match d {
        Dir::NoData => _IOC_NONE_ALT,
        Dir::Read => _IOC_READ_ALT,
        Dir::Write => _IOC_WRITE_ALT,
        Dir::ReadWrite => 6,
    }
}

/// The packed request word of the generic encoding, from a raw direction
/// pattern and the three field values.
pub open spec fn spec_ioc(dir: u32, ty: u32, nr: u32, size: u32) -> u32 {
    (dir << _IOC_DIRSHIFT) | (ty << _IOC_TYPESHIFT) | (nr << _IOC_NRSHIFT) | (size
        << _IOC_SIZESHIFT)
}

/// The packed request word of the divergent encoding.
pub open spec fn spec_ioc_alt(dir: u32, ty: u32, nr: u32, size: u32) -> u32 {
    (dir << _IOC_DIRSHIFT_ALT) | (ty << _IOC_TYPESHIFT) | (nr << _IOC_NRSHIFT) | (size
        << _IOC_SIZESHIFT)
}

/// Packs a request code in the generic encoding.
#[allow(non_snake_case)]
pub fn _IOC(dir: Dir, ty: u32, nr: u32, size: u32) -> (r: u32)
    requires
        ty <= 0xff,
        nr <= 0xff,
        size <= 0x3fff,
    ensures
        r == spec_ioc(dir_value(dir), ty, nr, size),
{
    let d = dir_raw(dir);
    (d << _IOC_DIRSHIFT) | (ty << _IOC_TYPESHIFT) | (nr << _IOC_NRSHIFT) | (size << _IOC_SIZESHIFT)
}

/// Packs a request code in the divergent encoding.
#[allow(non_snake_case)]
pub fn _IOC_ALT(dir: Dir, ty: u32, nr: u32, size: u32) -> (r: u32)
    requires
        ty <= 0xff,
        nr <= 0xff,
        size <= 0x1fff,
    ensures
        r == spec_ioc_alt(dir_value_alt(dir), ty, nr, size),
{
    let d = dir_raw_alt(dir);
    (d << _IOC_DIRSHIFT_ALT) | (ty << _IOC_TYPESHIFT) | (nr << _IOC_NRSHIFT) | (size
        << _IOC_SIZESHIFT)
}

/// Every field of a generic-encoding request word can be read back from its
/// documented bit positions: the packing is exact and loses nothing.
pub proof fn lemma_ioc_fields(dir: u32, ty: u32, nr: u32, size: u32)
    requires
        dir <= 0x3,
        ty <= 0xff,
        nr <= 0xff,
        size <= 0x3fff,
    ensures
        spec_ioc(dir, ty, nr, size) & 0xff == nr,
        (spec_ioc(dir, ty, nr, size) >> 8) & 0xff == ty,
        (spec_ioc(dir, ty, nr, size) >> 16) & 0x3fff == size,
        spec_ioc(dir, ty, nr, size) >> 30 == dir,
{
    assert(spec_ioc(dir, ty, nr, size) & 0xff == nr && (spec_ioc(dir, ty, nr, size) >> 8) & 0xff
        == ty && (spec_ioc(dir, ty, nr, size) >> 16) & 0x3fff == size && spec_ioc(
        dir,
        ty,
        nr,
        size,
    ) >> 30 == dir) by (bit_vector)
        requires
            dir <= 0x3,
            ty <= 0xff,
            nr <= 0xff,
            size <= 0x3fff,
    ;
}

/// Every field of a divergent-encoding request word can be read back from
/// its documented bit positions.
pub proof fn lemma_ioc_alt_fields(dir: u32, ty: u32, nr: u32, size: u32)
    requires
        dir <= 0x7,
        ty <= 0xff,
        nr <= 0xff,
        size <= 0x1fff,
    ensures
        spec_ioc_alt(dir, ty, nr, size) & 0xff == nr,
        (spec_ioc_alt(dir, ty, nr, size) >> 8) & 0xff == ty,
        (spec_ioc_alt(dir, ty, nr, size) >> 16) & 0x1fff == size,
        spec_ioc_alt(dir, ty, nr, size) >> 29 == dir,
{
    assert(spec_ioc_alt(dir, ty, nr, size) & 0xff == nr && (spec_ioc_alt(dir, ty, nr, size) >> 8)
        & 0xff == ty && (spec_ioc_alt(dir, ty, nr, size) >> 16) & 0x1fff == size && spec_ioc_alt(
        dir,
        ty,
        nr,
        size,
    ) >> 29 == dir) by (bit_vector)
        requires
            dir <= 0x7,
            ty <= 0xff,
            nr <= 0xff,
            size <= 0x1fff,
    ;
}

/// The generic encoding fills the 32-bit word exactly: the four field
/// widths sum to 32, and each shift is the cumulative width of the fields
/// below it.
pub proof fn lemma_generic_layout_invariant()
    ensures
        _IOC_NRBITS + _IOC_TYPEBITS + _IOC_SIZEBITS + _IOC_DIRBITS == 32,
        _IOC_TYPESHIFT == _IOC_NRBITS,
        _IOC_SIZESHIFT == _IOC_NRBITS + _IOC_TYPEBITS,
        _IOC_DIRSHIFT == _IOC_NRBITS + _IOC_TYPEBITS + _IOC_SIZEBITS,
{
}

/// The divergent encoding fills the 32-bit word exactly as well: its wider
/// direction field takes the bit the narrower size field gives up.
pub proof fn lemma_divergent_layout_invariant()
    ensures
        _IOC_NRBITS + _IOC_TYPEBITS + _IOC_SIZEBITS_ALT + _IOC_DIRBITS_ALT == 32,
        _IOC_DIRSHIFT_ALT == _IOC_NRBITS + _IOC_TYPEBITS + _IOC_SIZEBITS_ALT,
{
}

/// The abstract union of two directions matches the bitwise union of their
/// generic-encoding bit patterns, whenever the combination is allowed.
pub proof fn lemma_dir_value_of_join(a: Dir, b: Dir)
    requires
        a.can_combine(b),
    ensures
        dir_value(a.join(b)) == dir_value(a) | dir_value(b),
{
    assert(0u32 | 0 == 0 && 1u32 | 1 == 1 && 2u32 | 2 == 2 && 3u32 | 3 == 3 && 1u32 | 2 == 3
        && 2u32 | 1 == 3 && 1u32 | 3 == 3 && 3u32 | 1 == 3 && 2u32 | 3 == 3 && 3u32 | 2 == 3)
        by (bit_vector);
}

/// The abstract union of two directions matches the bitwise union of their
/// divergent-encoding bit patterns, whenever the combination is allowed.
pub proof fn lemma_dir_value_alt_of_join(a: Dir, b: Dir)
    requires
        a.can_combine(b),
    ensures
        dir_value_alt(a.join(b)) == dir_value_alt(a) | dir_value_alt(b),
{
    assert(1u32 | 1 == 1 && 2u32 | 2 == 2 && 4u32 | 4 == 4 && 6u32 | 6 == 6 && 2u32 | 4 == 6
        && 4u32 | 2 == 6 && 2u32 | 6 == 6 && 6u32 | 2 == 6 && 4u32 | 6 == 6 && 6u32 | 4 == 6)
        by (bit_vector);
}

} // verus!
