//! Direction values and their combination.

use uoctl::{Dir, IOC_INOUT, IOC_IN, IOC_OUT, IOC_VOID, _IOC_NONE, _IOC_READ, _IOC_READ_WRITE,
    _IOC_WRITE};

#[test]
fn dir_or() {
    assert_ne!(_IOC_NONE, _IOC_READ);
    assert_ne!(_IOC_NONE, _IOC_WRITE);

    assert_eq!(_IOC_READ.combine(_IOC_WRITE), _IOC_READ_WRITE);
    assert_eq!(_IOC_READ.combine(_IOC_READ), _IOC_READ);
    assert_eq!(_IOC_WRITE.combine(_IOC_WRITE), _IOC_WRITE);
    assert_eq!(_IOC_NONE.combine(_IOC_NONE), _IOC_NONE);
}

#[test]
fn dir_none_or_read() {
    assert!(_IOC_NONE.try_combine(_IOC_READ).is_none());
}

#[test]
fn dir_none_or_write() {
    assert!(_IOC_NONE.try_combine(_IOC_WRITE).is_none());
}

#[test]
fn dir_read_or_none() {
    assert!(_IOC_READ.try_combine(_IOC_NONE).is_none());
}

#[test]
fn dir_write_or_none() {
    assert!(_IOC_WRITE.try_combine(_IOC_NONE).is_none());
}

#[test]
fn dir_combine_idempotent() {
    for d in [Dir::NoData, Dir::Read, Dir::Write, Dir::ReadWrite] {
        assert_eq!(d.combine(d), d);
        assert_eq!(d.try_combine(d), Some(d));
    }
}

#[test]
fn dir_combine_commutative() {
    let dirs = [Dir::Read, Dir::Write, Dir::ReadWrite];
    for a in dirs {
        for b in dirs {
            assert_eq!(a.combine(b), b.combine(a));
        }
    }
}

#[test]
fn dir_none_mix_rejected_both_orders() {
    for d in [Dir::Read, Dir::Write, Dir::ReadWrite] {
        assert!(Dir::NoData.try_combine(d).is_none());
        assert!(d.try_combine(Dir::NoData).is_none());
    }
}

#[test]
fn dir_bsd_aliases() {
    assert_eq!(IOC_VOID, _IOC_NONE);
    assert_eq!(IOC_OUT, _IOC_READ);
    assert_eq!(IOC_IN, _IOC_WRITE);
    assert_eq!(IOC_INOUT, _IOC_READ_WRITE);
}
