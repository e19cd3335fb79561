//! Typed `ioctl` request codes.
//!
//! An `ioctl` request code packs a direction, a driver/subsystem type, a
//! command number, and the byte size of the argument into one 32-bit word.
//! This crate builds such codes, pairs each one with a marker describing the
//! shape of its argument, and proves that the packing is exact: every field
//! of a constructed code can be read back by the stated bit positions.
//!
//! The actual syscall is left to the caller: a request code is plain data.

use vstd::prelude::*;

pub mod platform;

use crate::platform::linux;

verus! {

broadcast use vstd::layout::layout_of_primitives;

/// Direction of an `ioctl`: whether the kernel reads data from userspace,
/// writes data to userspace, both, or neither, through the argument.
///
/// The raw bit pattern that stands for each direction differs between
/// platform layouts (see the `platform` modules); this type is the
/// layout-independent value that the raw patterns encode.
#[derive(Clone, Copy, Debug, PartialEq, Eq, Structural)]
pub enum Dir {
    /// The `ioctl` transfers no data through its argument.
    NoData,
    /// The kernel writes data to userspace through the argument.
    Read,
    /// The kernel reads data from userspace through the argument.
    Write,
    /// The kernel both reads and writes through the argument.
    ReadWrite,
}

impl Dir {
    /// Two directions may be combined unless exactly one of them is
    /// [`Dir::NoData`]: on some platform layouts the "none" pattern is
    /// non-zero, so taking the bitwise union of "none" with a real direction
    /// would silently produce a meaningless request code.
    pub open spec fn can_combine(self, other: Dir) -> bool {
        (self is NoData) <==> (other is NoData)
    }

    /// The union of two directions, matching the bitwise union of their raw
    /// patterns on every platform layout (see `lemma_dir_value_of_join` in
    /// the `platform` modules).
    pub open spec fn join(self, other: Dir) -> Dir {
        match (self, other) {
            (Dir::NoData, d) => d,
            (d, Dir::NoData) => d,
            (Dir::ReadWrite, _) => Dir::ReadWrite,
            (_, Dir::ReadWrite) => Dir::ReadWrite,
            (Dir::Read, Dir::Write) => Dir::ReadWrite,
            (Dir::Write, Dir::Read) => Dir::ReadWrite,
            (d, _) => d,
        }
    }

    /// Combines two directions. Callers must not mix [`Dir::NoData`] with a
    /// real direction; use [`Dir::try_combine`] when that cannot be ruled
    /// out beforehand.
    pub fn combine(self, other: Dir) -> (r: Dir)
        requires
            self.can_combine(other),
        ensures
            r == self.join(other),
    {
        match (self, other) {
            (Dir::NoData, d) => d,
            (d, Dir::NoData) => d,
            (Dir::ReadWrite, _) => Dir::ReadWrite,
            (_, Dir::ReadWrite) => Dir::ReadWrite,
            (Dir::Read, Dir::Write) => Dir::ReadWrite,
            (Dir::Write, Dir::Read) => Dir::ReadWrite,
            (d, _) => d,
        }
    }

    /// Combines two directions, rejecting exactly the invalid mixtures of
    /// [`Dir::NoData`] with a real direction.
    pub fn try_combine(self, other: Dir) -> (r: Option<Dir>)
        ensures
            self.can_combine(other) ==> r == Some(self.join(other)),
            !self.can_combine(other) ==> r is None,
    {
        if (self == Dir::NoData) != (other == Dir::NoData) {
            None
        } else {
            Some(self.combine(other))
        }
    }
}

/// Combining a direction with itself gives it back unchanged.
pub proof fn lemma_combine_idempotent(d: Dir)
    ensures
        d.can_combine(d),
        d.join(d) == d,
{
}

/// Combination does not depend on the order of its arguments: neither
/// whether it is allowed, nor what it yields.
pub proof fn lemma_combine_commutative(a: Dir, b: Dir)
    ensures
        a.can_combine(b) == b.can_combine(a),
        a.join(b) == b.join(a),
{
}

/// Combining the read and write directions yields the read-write direction.
pub proof fn lemma_combine_read_write()
    ensures
        Dir::Read.can_combine(Dir::Write),
        Dir::Read.join(Dir::Write) == Dir::ReadWrite,
{
}

/// Mixing [`Dir::NoData`] with any real direction is rejected, in either
/// argument order.
pub proof fn lemma_none_rejects(d: Dir)
    requires
        d != Dir::NoData,
    ensures
        !Dir::NoData.can_combine(d),
        !d.can_combine(Dir::NoData),
{
}

/// The `ioctl` transfers no data through its argument.
pub const _IOC_NONE: Dir = Dir::NoData;

/// The kernel writes data to userspace through the argument.
pub const _IOC_READ: Dir = Dir::Read;

/// The kernel reads data from userspace through the argument.
pub const _IOC_WRITE: Dir = Dir::Write;

/// The kernel both reads and writes through the argument. Equal to
/// combining [`_IOC_READ`] with [`_IOC_WRITE`] (see
/// `lemma_combine_read_write`).
pub const _IOC_READ_WRITE: Dir = Dir::ReadWrite;

/// The name BSD-derived systems use for [`_IOC_NONE`].
pub const IOC_VOID: Dir = _IOC_NONE;

/// The name BSD-derived systems use for [`_IOC_READ`].
pub const IOC_OUT: Dir = _IOC_READ;

/// The name BSD-derived systems use for [`_IOC_WRITE`].
pub const IOC_IN: Dir = _IOC_WRITE;

/// The name BSD-derived systems use for [`_IOC_READ_WRITE`].
pub const IOC_INOUT: Dir = _IOC_READ_WRITE;

/// Marks an [`Ioctl`] that takes no argument.
///
/// An `Ioctl<NoArgs>` is invoked with the zero placeholder word in place of
/// an argument (see [`Ioctl::syscall_args`]).
pub struct NoArgs {
    _f: (),
}

/// Marks an [`Ioctl`] whose argument is the address of a `T` that the
/// kernel only reads from.
#[verifier::reject_recursive_types(T)]
pub struct PtrConst<T> {
    _p: core::marker::PhantomData<T>,
}

/// Marks an [`Ioctl`] whose argument is the address of a `T` that the
/// kernel may write through.
#[verifier::reject_recursive_types(T)]
pub struct PtrMut<T> {
    _p: core::marker::PhantomData<T>,
}

/// An `ioctl`: a packed 32-bit request code, together with a zero-footprint
/// marker describing the shape of the argument that the device-control
/// syscall expects alongside the code.
///
/// The marker is [`NoArgs`] for an `ioctl` without an argument,
/// [`PtrConst<T>`] or [`PtrMut<T>`] for one that takes the address of a
/// `T`, and a plain `T` for one that takes a `T` by value. Whether the
/// marker matches what the driver actually expects cannot be checked here —
/// kernel headers are sometimes wrong about it — so the re-marking
/// operations [`Ioctl::with_arg`], [`Ioctl::with_direct_arg`],
/// [`Ioctl::cast_mut`] and [`Ioctl::cast_const`] are explicit and keep the
/// code unchanged.
#[verifier::reject_recursive_types(T)]
pub struct Ioctl<T = NoArgs> {
    request: u32,
    _p: core::marker::PhantomData<T>,
}

impl<T> Clone for Ioctl<T> {
    fn clone(&self) -> (r: Self)
        ensures
            r == *self,
    {
        Ioctl { request: self.request, _p: core::marker::PhantomData }
    }
}

impl<T> Copy for Ioctl<T> {
}

impl<T> Ioctl<T> {
    /// The packed request code carried by this `ioctl`.
    pub closed spec fn code(self) -> u32 {
        self.request
    }

    /// Wraps a pre-existing numeric request code, for legacy `ioctl`s that
    /// were defined before the packed encoding existed. The code is taken
    /// as it is: no size or direction checking applies to it.
    pub fn from_raw(request: u32) -> (r: Self)
        ensures
            r.code() == request,
    {
        Ioctl { request, _p: core::marker::PhantomData }
    }

    /// Re-marks the argument type as `T2`, keeping the request code. For
    /// `ioctl`s whose declared argument type is wrong, or whose argument is
    /// passed by value rather than by address.
    pub fn with_arg<T2>(self) -> (r: Ioctl<T2>)
        ensures
            r.code() == self.code(),
    {
        Ioctl { request: self.request, _p: core::marker::PhantomData }
    }

    /// The packed request code, as passed to the device-control syscall.
    pub fn request(self) -> (r: u32)
        ensures
            r == self.code(),
    {
        self.request
    }
}

impl<T> Ioctl<PtrConst<T>> {
    /// Re-marks the argument to be passed directly by value instead of by
    /// address, keeping the request code. Many kernel headers declare an
    /// `ioctl` as writing a `T` through a pointer while the driver actually
    /// expects the value itself as the argument word.
    pub fn with_direct_arg(self) -> (r: Ioctl<T>)
        ensures
            r.code() == self.code(),
    {
        self.with_arg()
    }

    /// Re-marks the pointed-to `T` as writable by the kernel, keeping the
    /// request code. For `ioctl`s declared as only reading their argument
    /// when the driver in fact writes through it.
    pub fn cast_mut(self) -> (r: Ioctl<PtrMut<T>>)
        ensures
            r.code() == self.code(),
    {
        self.with_arg()
    }
}

impl<T> Ioctl<PtrMut<T>> {
    /// Re-marks the pointed-to `T` as only read by the kernel, keeping the
    /// request code. The opposite of [`Ioctl::cast_mut`].
    pub fn cast_const(self) -> (r: Ioctl<PtrConst<T>>)
        ensures
            r.code() == self.code(),
    {
        self.with_arg()
    }
}

impl Ioctl<NoArgs> {
    /// The two words handed to the device-control syscall for a
    /// no-argument `ioctl`: the packed code, and the zero placeholder that
    /// stands in for the missing argument. The placeholder is passed
    /// because some no-argument `ioctl`s fail unless their argument word is
    /// zero; no address is ever involved on this path.
    pub fn syscall_args(self) -> (r: (u32, usize))
        ensures
            r.0 == self.code(),
            r.1 == 0,
    {
        (self.request, 0)
    }
}

/// Interprets the raw return value of the device-control syscall: `-1` is
/// the failure sentinel, and the caller should surface the operating
/// system's error; any other value is the operation's result and is handed
/// back as it is.
pub fn syscall_result(res: i32) -> (r: Option<i32>)
    ensures
        res == -1 ==> r is None,
        res != -1 ==> r == Some(res),
{
    if res == -1 {
        None
    } else {
        Some(res)
    }
}

/// Builds an [`Ioctl`] from its components in the generic Linux layout:
/// direction, driver/subsystem type, command number, and argument byte
/// size. The size must not exceed [`linux::MAX_ARG_SIZE`]; callers with a
/// size known only at run time use [`try_ioc`].
#[allow(non_snake_case)]
pub fn _IOC<T>(dir: Dir, ty: u8, nr: u8, size: usize) -> (r: Ioctl<T>)
    requires
        size <= linux::MAX_ARG_SIZE,
    ensures
        r.code() == linux::spec_ioc(linux::dir_value(dir), ty as u32, nr as u32, size as u32),
{
    let request = linux::_IOC(dir, ty as u32, nr as u32, size as u32);
    Ioctl::from_raw(request)
}

/// Builds an [`Ioctl`] from its components, rejecting an argument size
/// over [`linux::MAX_ARG_SIZE`] instead of requiring the caller to rule it
/// out beforehand.
pub fn try_ioc<T>(dir: Dir, ty: u8, nr: u8, size: usize) -> (r: Option<Ioctl<T>>)
    ensures
        size > linux::MAX_ARG_SIZE ==> r is None,
        size <= linux::MAX_ARG_SIZE ==> (r matches Some(i) && i.code() == linux::spec_ioc(
            linux::dir_value(dir),
            ty as u32,
            nr as u32,
            size as u32,
        )),
{
    if size <= linux::MAX_ARG_SIZE {
        Some(_IOC(dir, ty, nr, size))
    } else {
        None
    }
}

/// Builds an [`Ioctl`] that transfers no data: direction none, size zero.
/// The result takes no argument; [`Ioctl::with_arg`] re-marks it for the
/// `ioctl`s that expect a direct value anyway.
#[allow(non_snake_case)]
pub fn _IO(ty: u8, nr: u8) -> (r: Ioctl<NoArgs>)
    ensures
        r.code() == linux::spec_ioc(linux::dir_value(Dir::NoData), ty as u32, nr as u32, 0),
{
    _IOC(_IOC_NONE, ty, nr, 0)
}

/// Builds an [`Ioctl`] through which the kernel fills a caller-provided
/// `T`: direction read, size the size of `T`, argument the address of the
/// `T` to fill.
#[allow(non_snake_case)]
pub fn _IOR<T>(ty: u8, nr: u8) -> (r: Ioctl<PtrMut<T>>)
    requires
        vstd::layout::size_of::<T>() <= linux::MAX_ARG_SIZE,
    ensures
        r.code() == linux::spec_ioc(
            linux::dir_value(Dir::Read),
            ty as u32,
            nr as u32,
            vstd::layout::size_of::<T>() as u32,
        ),
{
    let size: usize = core::mem::size_of::<T>();
    _IOC(_IOC_READ, ty, nr, size)
}

/// Builds an [`Ioctl`] through which the kernel reads a caller-provided
/// `T`: direction write, size the size of `T`, argument the address of the
/// `T` to read. Some drivers expect the `T` itself as the argument word
/// instead; re-mark with [`Ioctl::with_direct_arg`] for those, and with
/// [`Ioctl::cast_mut`] for `ioctl`s misdeclared as write-only that in fact
/// write back through the pointer.
#[allow(non_snake_case)]
pub fn _IOW<T>(ty: u8, nr: u8) -> (r: Ioctl<PtrConst<T>>)
    requires
        vstd::layout::size_of::<T>() <= linux::MAX_ARG_SIZE,
    ensures
        r.code() == linux::spec_ioc(
            linux::dir_value(Dir::Write),
            ty as u32,
            nr as u32,
            vstd::layout::size_of::<T>() as u32,
        ),
{
    let size: usize = core::mem::size_of::<T>();
    _IOC(_IOC_WRITE, ty, nr, size)
}

/// Builds an [`Ioctl`] through which the kernel both reads and writes a
/// caller-provided `T`: direction read-write, size the size of `T`,
/// argument the address of the `T`.
#[allow(non_snake_case)]
pub fn _IOWR<T>(ty: u8, nr: u8) -> (r: Ioctl<PtrMut<T>>)
    requires
        vstd::layout::size_of::<T>() <= linux::MAX_ARG_SIZE,
    ensures
        r.code() == linux::spec_ioc(
            linux::dir_value(Dir::ReadWrite),
            ty as u32,
            nr as u32,
            vstd::layout::size_of::<T>() as u32,
        ),
{
    let size: usize = core::mem::size_of::<T>();
    _IOC(_IOC_READ_WRITE, ty, nr, size)
}

/// Builds an [`Ioctl`] that passes a C `int` directly by value, following
/// the convention of the BSD headers (direction none, size the size of an
/// `int`). Linux headers have no such form; they declare these `ioctl`s
/// with [`_IOW`] and the argument is re-marked with
/// [`Ioctl::with_direct_arg`].
#[allow(non_snake_case)]
pub fn _IOWINT(group: u8, nr: u8) -> (r: Ioctl<i32>)
    ensures
        r.code() == linux::spec_ioc(linux::dir_value(Dir::NoData), group as u32, nr as u32, 4),
{
    let size: usize = core::mem::size_of::<i32>();
    _IOC(IOC_VOID, group, nr, size)
}

} // verus!
