use static_bytes::CapacityExceeded;
use static_bytes::SafeBytesSlice;

fn fill_bytes(slice: &mut SafeBytesSlice, amount: usize) {
    for _ in 0..amount {
        slice.put_u8(0xFF);
    }
}

#[test]
fn scenario_write_27_of_32() {
    let mut s = SafeBytesSlice::from(vec![0u8; 32]);
    fill_bytes(&mut s, 27);
    assert_eq!(s.is_exceed(), false);
    let out = s.try_into_bytes().expect("27 bytes fit in 32");
    assert_eq!(out.len(), 27);
    assert!(out.iter().all(|b| *b == 0xFF));
}

#[test]
fn scenario_write_32_of_32() {
    let mut s = SafeBytesSlice::from(vec![0u8; 32]);
    fill_bytes(&mut s, 32);
    assert_eq!(s.is_exceed(), false);
    let out = s.try_into_bytes().expect("32 bytes fit exactly in 32");
    assert_eq!(out.len(), 32);
    assert!(out.iter().all(|b| *b == 0xFF));
}

#[test]
fn scenario_write_33_single_call() {
    let mut s = SafeBytesSlice::from(vec![0u8; 32]);
    s.put_slice(&[0xFF; 33]);
    assert_eq!(s.is_exceed(), true);
    assert_eq!(s.try_into_bytes(), Err(CapacityExceeded));
}

#[test]
fn scenario_write_33_byte_by_byte() {
    let mut s = SafeBytesSlice::from(vec![0u8; 32]);
    fill_bytes(&mut s, 33);
    assert_eq!(s.is_exceed(), true);
    assert_eq!(s.try_into_bytes(), Err(CapacityExceeded));
}

#[test]
fn scenario_zero_capacity() {
    let mut s = SafeBytesSlice::from(Vec::new());
    s.put_slice(&[1]);
    assert_eq!(s.is_exceed(), true);

    let mut s = SafeBytesSlice::from(Vec::new());
    s.put_slice(&[]);
    assert_eq!(s.is_exceed(), false);
    let out = s.try_into_bytes().expect("a zero-length write never overflows");
    assert!(out.is_empty());
}

#[test]
fn boundary_exact_fit() {
    let mut s = SafeBytesSlice::from(vec![0u8; 8]);
    s.put_slice(&[1, 2, 3, 4, 5]);
    assert_eq!(s.remaining_mut(), 3);
    s.put_slice(&[6, 7, 8]);
    assert_eq!(s.is_exceed(), false);
    assert_eq!(s.remaining_mut(), 0);
    let out = s.try_into_bytes().expect("an exact fit does not overflow");
    assert_eq!(out, vec![1, 2, 3, 4, 5, 6, 7, 8]);
}

#[test]
fn oversized_write_rejected_entirely() {
    let mut s = SafeBytesSlice::from(vec![0u8; 8]);
    s.put_slice(&[1, 2, 3, 4, 5]);
    // four more bytes only partially fit: nothing may be copied
    s.put_slice(&[6, 7, 8, 9]);
    assert_eq!(s.is_exceed(), true);
    assert_eq!(s.remaining_mut(), 0);
    assert_eq!(s.try_into_bytes(), Err(CapacityExceeded));
}

#[test]
fn overflow_is_sticky() {
    let mut s = SafeBytesSlice::from(vec![0u8; 4]);
    s.put_slice(&[1, 2, 3, 4, 5]);
    assert_eq!(s.is_exceed(), true);
    s.put_slice(&[6]);
    s.put_u8(7);
    s.put_slice(&[]);
    s.advance_mut(1);
    assert_eq!(s.is_exceed(), true);
    assert_eq!(s.try_into_bytes(), Err(CapacityExceeded));
}

#[test]
fn writes_concatenate_in_order() {
    let mut s = SafeBytesSlice::from(vec![0u8; 16]);
    s.put_slice(&[1, 2, 3]);
    s.put_slice(&[]);
    s.put_slice(&[4, 5]);
    s.put_u8(6);
    assert_eq!(s.bytes_written(), 6);
    let out = s.try_into_bytes().expect("6 bytes fit in 16");
    assert_eq!(out, vec![1, 2, 3, 4, 5, 6]);
}

#[test]
fn advance_exposes_existing_bytes() {
    let mut s = SafeBytesSlice::from(vec![10, 20, 30]);
    s.advance_mut(2);
    let out = s.try_into_bytes().expect("the cursor stays inside the region");
    assert_eq!(out, vec![10, 20]);
}

#[test]
fn advance_past_end_overflows() {
    let mut s = SafeBytesSlice::from(vec![0u8; 4]);
    s.advance_mut(5);
    assert_eq!(s.is_exceed(), true);
    assert_eq!(s.remaining_mut(), 0);
    assert_eq!(s.try_into_bytes(), Err(CapacityExceeded));
}

#[test]
fn fresh_adapter_is_independent() {
    let mut s = SafeBytesSlice::from(vec![0u8; 4]);
    s.put_slice(&[9, 9, 9, 9, 9]);
    assert_eq!(s.is_exceed(), true);

    // a fresh adapter over an equal backing region starts from scratch
    let mut s = SafeBytesSlice::from(vec![0u8; 4]);
    assert_eq!(s.is_exceed(), false);
    assert_eq!(s.remaining_mut(), 4);
    assert!(s.is_empty());
    s.put_slice(&[1, 2]);
    assert_eq!(s.bytes_written(), 2);
    let out = s.try_into_bytes().expect("2 bytes fit in 4");
    assert_eq!(out, vec![1, 2]);
}

#[test]
fn empty_region_bookkeeping() {
    let s = SafeBytesSlice::from(vec![0u8; 5]);
    assert!(s.is_empty());
    assert_eq!(s.bytes_written(), 0);
    assert_eq!(s.remaining_mut(), 5);
}
