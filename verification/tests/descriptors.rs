use iovec::unix::as_os_slice;
use iovec::unix::as_os_slice_mut;
use iovec::IoVec;
use iovec::IoVecMut;

#[test]
fn os_slice_round_trip() {
    let a: Vec<u8> = b"hello".to_vec();
    let b: Vec<u8> = b"world".to_vec();

    let va = IoVec::from_bytes(&a[..]);
    let vb = IoVec::from_bytes(&b[..]);
    let bufs = vec![&va, &vb];

    let os_bufs = as_os_slice(&bufs[..]);
    assert_eq!(os_bufs.len(), 2);
    assert_eq!(os_bufs[0].as_ref(), &b"hello"[..]);
    assert_eq!(os_bufs[1].as_ref(), &b"world"[..]);
    assert_eq!(os_bufs[0].as_ref().as_ptr() as usize, a.as_ptr() as usize);
    assert_eq!(os_bufs[1].as_ref().as_ptr() as usize, b.as_ptr() as usize);
}

#[test]
fn os_slice_mut_round_trip() {
    let mut a: Vec<u8> = b"hello".to_vec();
    let mut b: Vec<u8> = b"world".to_vec();

    let bufs = vec![
        IoVecMut::from_bytes(&mut a[..]),
        IoVecMut::from_bytes(&mut b[..]),
    ];

    let os_bufs = as_os_slice_mut(&bufs[..]);
    assert_eq!(os_bufs.len(), 2);
    assert_eq!(os_bufs[0].as_ref(), &b"hello"[..]);
    assert_eq!(os_bufs[1].as_ref(), &b"world"[..]);
}

#[test]
fn unix_shape_round_trip() {
    let v = iovec::sys::unix::IoVec::from_bytes(&b"hello"[..]);
    assert_eq!(v.as_ref(), &b"hello"[..]);

    let d = iovec::sys::unix::IoVec::default();
    assert_eq!(d.as_ref(), &b""[..]);
}

#[test]
fn unix_shape_mut_source_kept() {
    let mut buf: Vec<u8> = b"hello"[..].to_vec();
    let v = iovec::sys::unix::IoVec::from_bytes_mut(&mut buf[..]);
    assert_eq!(v.as_ref(), &b"hello"[..]);
    assert_eq!(&buf[..], &b"hello"[..]);
}

#[test]
fn windows_shape_round_trip() {
    let v = iovec::sys::windows::IoVec::from_bytes(&b"hello"[..]);
    assert_eq!(v.as_ref(), &b"hello"[..]);

    let mut buf: Vec<u8> = b"world".to_vec();
    let m = iovec::sys::windows::IoVec::from_bytes_mut(&mut buf[..]);
    assert_eq!(m.as_ref(), &b"world"[..]);

    let d = iovec::sys::windows::IoVec::default();
    assert_eq!(d.as_ref(), &b""[..]);
}

#[test]
fn unknown_shape_round_trip() {
    let v = iovec::sys::unknown::IoVec::from_bytes(&b"hello"[..]);
    assert_eq!(v.as_ref(), &b"hello"[..]);

    let mut buf: Vec<u8> = b"world".to_vec();
    let m = iovec::sys::unknown::IoVec::from_bytes_mut(&mut buf[..]);
    assert_eq!(m.as_ref(), &b"world"[..]);

    let d = iovec::sys::unknown::IoVec::default();
    assert_eq!(d.as_ref(), &b""[..]);
}
