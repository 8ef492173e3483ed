use windows_kernel_rs::error::Error;
use windows_kernel_rs::plain::Plain;
use windows_kernel_rs::user_ptr::{copy_to_prefix, UserPtr};

#[test]
fn read_fails_one_byte_short_of_the_value() {
    let ptr = UserPtr::new_buffered(Some(vec![1, 2, 3, 4, 5, 6, 7, 8]), 3, 8);
    assert_eq!(ptr.read::<u32>(), Err(Error::invalid_user_buffer()));
    let ptr = UserPtr::new_buffered(Some(vec![1, 2, 3, 4, 5, 6, 7, 8]), 7, 8);
    assert_eq!(ptr.read::<u64>(), Err(Error::invalid_user_buffer()));
    let ptr = UserPtr::new_buffered(Some(vec![1, 2, 3, 4, 5, 6, 7, 8]), 0, 8);
    assert_eq!(ptr.read::<u8>(), Err(Error::invalid_user_buffer()));
}

#[test]
fn read_succeeds_at_exactly_the_size_of_the_value() {
    let ptr = UserPtr::new_buffered(Some(vec![0x78, 0x56, 0x34, 0x12, 0xff, 0xff]), 4, 0);
    let value = ptr.read::<u32>();
    assert_eq!(value, Ok(0x1234_5678));
    assert_eq!(value.unwrap().to_bytes(), vec![0x78, 0x56, 0x34, 0x12]);
    let ptr = UserPtr::new_buffered(Some(vec![0xaa]), 1, 0);
    assert_eq!(ptr.read::<u8>(), Ok(0xaa));
}

#[test]
fn read_succeeds_with_more_declared_than_the_value_needs() {
    let ptr = UserPtr::new_buffered(Some(vec![0x34, 0x12, 9, 9, 9]), 5, 0);
    assert_eq!(ptr.read::<u16>(), Ok(0x1234));
}

#[test]
fn read_of_absent_region_is_an_access_violation() {
    let ptr = UserPtr::new_buffered(None, 16, 16);
    assert_eq!(ptr.read::<u32>(), Err(Error::access_violation()));
    let ptr = UserPtr::new_direct(None, Some(vec![0; 16]), 16, 16);
    assert_eq!(ptr.read::<u32>(), Err(Error::access_violation()));
}

#[test]
fn read_past_the_end_of_the_region_is_an_access_violation() {
    let ptr = UserPtr::new_buffered(Some(vec![1, 2]), 8, 8);
    assert_eq!(ptr.read::<u32>(), Err(Error::access_violation()));
    assert_eq!(ptr.read::<u16>(), Ok(0x0201));
}

#[test]
fn neither_fails_every_access() {
    let mut ptr = UserPtr::new_neither();
    assert_eq!(ptr.read_size(), 0);
    assert_eq!(ptr.write_size(), 0);
    assert_eq!(ptr.read::<u8>(), Err(Error::access_violation()));
    assert_eq!(ptr.write(&1u8), Err(Error::access_violation()));
    assert!(ptr.as_slice().is_empty());
    assert!(ptr.as_mut_slice().is_empty());
}

#[test]
fn write_fails_one_byte_short_of_the_value() {
    let mut ptr = UserPtr::new_buffered(Some(vec![0; 8]), 8, 3);
    assert_eq!(ptr.write(&0xdead_beef_u32), Err(Error::invalid_user_buffer()));
    assert_eq!(ptr.as_slice(), &[0u8; 8][..]);
    let mut ptr = UserPtr::new_buffered(Some(vec![0; 8]), 8, 0);
    assert_eq!(ptr.write(&1u8), Err(Error::invalid_user_buffer()));
}

#[test]
fn write_reports_exactly_the_size_of_the_value() {
    let mut ptr = UserPtr::new_buffered(Some(vec![0xff; 6]), 6, 4);
    assert_eq!(ptr.write(&0x1234_5678_u32), Ok(4));
    assert_eq!(ptr.as_slice(), &[0x78, 0x56, 0x34, 0x12, 0xff, 0xff][..]);
    let mut ptr = UserPtr::new_buffered(Some(vec![0xff; 9]), 9, 9);
    assert_eq!(ptr.write(&0x0102_0304_0506_0708_u64), Ok(8));
    assert_eq!(ptr.as_slice(), &[8, 7, 6, 5, 4, 3, 2, 1, 0xff][..]);
    assert_eq!(ptr.write(&0x0a0b_u16), Ok(2));
    assert_eq!(ptr.write(&0x7f_u8), Ok(1));
    assert_eq!(ptr.as_slice(), &[0x7f, 0x0a, 6, 5, 4, 3, 2, 1, 0xff][..]);
}

#[test]
fn write_of_absent_region_is_an_access_violation() {
    let mut ptr = UserPtr::new_buffered(None, 16, 16);
    assert_eq!(ptr.write(&1u32), Err(Error::access_violation()));
    let mut ptr = UserPtr::new_direct(Some(vec![0; 16]), None, 16, 16);
    assert_eq!(ptr.write(&1u32), Err(Error::access_violation()));
}

#[test]
fn write_past_the_end_of_the_region_is_an_access_violation() {
    let mut ptr = UserPtr::new_buffered(Some(vec![7, 7, 7]), 3, 8);
    assert_eq!(ptr.write(&1u32), Err(Error::access_violation()));
    assert_eq!(ptr.as_slice(), &[7, 7, 7][..]);
}

#[test]
fn buffered_reads_what_was_written() {
    let mut ptr = UserPtr::new_buffered(Some(vec![0; 4]), 4, 4);
    assert_eq!(ptr.write(&-7i32), Ok(4));
    assert_eq!(ptr.read::<i32>(), Ok(-7));
    assert_eq!(ptr.read::<u32>(), Ok(0xffff_fff9));
}

#[test]
fn direct_keeps_its_two_regions_apart() {
    let mut ptr = UserPtr::new_direct(Some(vec![1, 0, 0, 0]), Some(vec![0; 4]), 4, 4);
    assert_eq!(ptr.write(&9u32), Ok(4));
    assert_eq!(ptr.read::<u32>(), Ok(1));
    assert_eq!(ptr.as_slice(), &[1, 0, 0, 0][..]);
    assert_eq!(ptr.as_mut_slice(), &mut [9, 0, 0, 0][..]);
}

#[test]
fn slices_are_bounded_by_the_declared_sizes() {
    let mut ptr = UserPtr::new_buffered(Some(vec![1, 2, 3, 4, 5, 6]), 2, 4);
    assert_eq!(ptr.read_size(), 2);
    assert_eq!(ptr.write_size(), 4);
    assert_eq!(ptr.as_slice(), &[1, 2][..]);
    assert_eq!(ptr.as_mut_slice(), &mut [1, 2, 3, 4][..]);
}

#[test]
fn slices_are_bounded_by_the_region() {
    let mut ptr = UserPtr::new_buffered(Some(vec![1, 2, 3]), 10, 20);
    assert_eq!(ptr.read_size(), 10);
    assert_eq!(ptr.write_size(), 20);
    assert_eq!(ptr.as_slice(), &[1, 2, 3][..]);
    assert_eq!(ptr.as_mut_slice(), &mut [1, 2, 3][..]);
    let mut ptr = UserPtr::new_buffered(None, 10, 20);
    assert!(ptr.as_slice().is_empty());
    assert!(ptr.as_mut_slice().is_empty());
}

#[test]
fn mutable_slice_writes_through_to_the_region() {
    let mut ptr = UserPtr::new_buffered(Some(vec![0; 5]), 5, 3);
    {
        let slice = ptr.as_mut_slice();
        assert_eq!(slice.len(), 3);
        slice[0] = 10;
        slice[2] = 30;
    }
    assert_eq!(ptr.as_slice(), &[10, 0, 30, 0, 0][..]);
}

#[test]
fn copy_to_prefix_leaves_the_rest() {
    let mut target = [1u8, 2, 3, 4, 5];
    copy_to_prefix(&mut target, &[9, 8]);
    assert_eq!(target, [9, 8, 3, 4, 5]);
    copy_to_prefix(&mut target, &[]);
    assert_eq!(target, [9, 8, 3, 4, 5]);
    copy_to_prefix(&mut target, &[0, 0, 0, 0, 0]);
    assert_eq!(target, [0; 5]);
}

#[test]
fn plain_values_are_laid_out_least_significant_byte_first() {
    assert_eq!(u8::size_of(), 1);
    assert_eq!(u16::size_of(), 2);
    assert_eq!(u32::size_of(), 4);
    assert_eq!(u64::size_of(), 8);
    assert_eq!(i32::size_of(), 4);
    assert_eq!(0x12u8.to_bytes(), vec![0x12]);
    assert_eq!(0x1234u16.to_bytes(), vec![0x34, 0x12]);
    assert_eq!(0x1234_5678u32.to_bytes(), vec![0x78, 0x56, 0x34, 0x12]);
    assert_eq!(1u64.to_bytes(), vec![1, 0, 0, 0, 0, 0, 0, 0]);
    assert_eq!((-2i32).to_bytes(), vec![0xfe, 0xff, 0xff, 0xff]);
    assert_eq!(u16::from_bytes(&[0x34, 0x12]), 0x1234);
    assert_eq!(u32::from_bytes(&[0x78, 0x56, 0x34, 0x12]), 0x1234_5678);
    assert_eq!(u64::from_bytes(&[1, 0, 0, 0, 0, 0, 0, 0x80]), 0x8000_0000_0000_0001);
    assert_eq!(i32::from_bytes(&[0xfe, 0xff, 0xff, 0xff]), -2);
    assert_eq!(u8::from_bytes(&[0xfe]), 0xfe);
}
