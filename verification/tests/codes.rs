//! Request codes built by the crate-level constructors, checked against
//! values published in the Linux kernel headers.

use uoctl::{
    syscall_result, try_ioc, Ioctl, NoArgs, PtrConst, PtrMut, _IO, _IOC, _IOC_READ, _IOR, _IOW,
    _IOWINT, _IOWR,
};

/// `VIDIOC_QUERYCAP` is `_IOR('V', 0, struct v4l2_capability)` with a
/// 104-byte capability struct, and its published value is `0x80685600`.
#[test]
fn encode_querycap() {
    let by_parts: Ioctl<NoArgs> = _IOC(_IOC_READ, b'V', 0, 104);
    assert_eq!(by_parts.request(), 0x80685600);

    let by_type: Ioctl<PtrMut<[u8; 104]>> = _IOR::<[u8; 104]>(b'V', 0);
    assert_eq!(by_type.request(), 0x80685600);
}

/// `RNDGETENTCNT` is `_IOR('R', 0, int)`, published as `0x80045200`.
#[test]
fn encode_ior_int() {
    let ioctl: Ioctl<PtrMut<i32>> = _IOR::<i32>(b'R', 0x00);
    assert_eq!(ioctl.request(), 0x80045200);
}

/// `KVM_GET_API_VERSION` is `_IO(0xAE, 0)`: no data, so only the type and
/// number fields are set.
#[test]
fn encode_io() {
    let ioctl = _IO(0xAE, 0x00);
    assert_eq!(ioctl.request(), 0xAE00);
}

/// `UI_SET_EVBIT` is `_IOW('U', 100, int)`, published as `0x40045564`; the
/// driver takes the `int` directly, so the handle is re-marked.
#[test]
fn encode_iow_direct() {
    let by_pointer: Ioctl<PtrConst<i32>> = _IOW::<i32>(b'U', 100);
    assert_eq!(by_pointer.request(), 0x40045564);

    let direct: Ioctl<i32> = by_pointer.with_direct_arg();
    assert_eq!(direct.request(), 0x40045564);
}

#[test]
fn encode_iowr() {
    let ioctl: Ioctl<PtrMut<u64>> = _IOWR::<u64>(b'X', 5);
    assert_eq!(ioctl.request(), 0xC0085805);
}

#[test]
fn encode_iowint() {
    let ioctl: Ioctl<i32> = _IOWINT(b'f', 3);
    assert_eq!(ioctl.request(), 0x00046603);
}

/// `with_arg` re-marks the argument type and leaves the code untouched.
#[test]
fn with_arg_keeps_code() {
    let ioctl = _IO(0xAE, 0x01);
    assert_eq!(ioctl.with_arg::<i32>().request(), 0xAE01);
}

/// `cast_mut` and `cast_const` only change pointer constness; the code
/// stays the same in both directions.
#[test]
fn casts_keep_code() {
    let write_only: Ioctl<PtrConst<u64>> = _IOW::<u64>(b'E', 0x80);
    assert_eq!(write_only.request(), 0x40084580);

    let writable: Ioctl<PtrMut<u64>> = write_only.cast_mut();
    assert_eq!(writable.request(), 0x40084580);

    let back: Ioctl<PtrConst<u64>> = writable.cast_const();
    assert_eq!(back.request(), 0x40084580);
}

/// `FIONREAD` predates the packed encoding; `from_raw` wraps its code
/// unchanged.
#[test]
fn from_raw_legacy() {
    let ioctl: Ioctl<PtrMut<i32>> = Ioctl::from_raw(0x541B);
    assert_eq!(ioctl.request(), 0x541B);
}

/// `from_raw` never runs size or direction validation: a code that no
/// layout could produce is carried through untouched.
#[test]
fn from_raw_skips_validation() {
    let ioctl: Ioctl<NoArgs> = Ioctl::from_raw(0xDEADBEEF);
    assert_eq!(ioctl.request(), 0xDEADBEEF);
    assert_eq!(ioctl.with_arg::<u64>().request(), 0xDEADBEEF);
}

/// Encoding at exactly the platform maximum size succeeds, one byte over
/// is rejected.
#[test]
fn size_at_and_over_maximum() {
    let at_max: Option<Ioctl<NoArgs>> = try_ioc(_IOC_READ, b'U', 44, 8191);
    assert_eq!(at_max.unwrap().request(), 0x9FFF552C);

    let over_max: Option<Ioctl<NoArgs>> = try_ioc(_IOC_READ, b'U', 44, 8192);
    assert!(over_max.is_none());
}

/// A type of exactly the maximum encodable size passes the static size
/// gate of the typed constructors.
#[test]
fn static_size_at_maximum() {
    let ioctl: Ioctl<PtrMut<[u8; 8191]>> = _IOR::<[u8; 8191]>(b'U', 44);
    assert_eq!(ioctl.request(), 0x9FFF552C);
}

/// A no-argument handle hands the syscall its packed code and the zero
/// placeholder: there is no argument on this path, and nothing to
/// dereference.
#[test]
fn no_args_invocation_words() {
    let ioctl = _IO(b'U', 1);
    let (code, placeholder) = ioctl.syscall_args();
    assert_eq!(code, 0x5501);
    assert_eq!(placeholder, 0);
}

/// `-1` is the syscall's failure sentinel; every other return value is the
/// operation's result.
#[test]
fn syscall_result_sentinel() {
    assert_eq!(syscall_result(-1), None);
    assert_eq!(syscall_result(0), Some(0));
    assert_eq!(syscall_result(42), Some(42));
    assert_eq!(syscall_result(i32::MIN), Some(i32::MIN));
}
