use cyclonedds_sys::dds_string::text_len;
use cyclonedds_sys::dds_string::DdsString;
use cyclonedds_sys::DDSError;

#[test]
fn abc_round_trip() {
    let content = "abc".as_bytes();
    assert_eq!(DdsString::allocation_size(content), Ok(4));
    let string = DdsString::new(content, 0x7000).unwrap();
    assert_eq!(string.image(), &[0x61, 0x62, 0x63, 0]);
    assert_eq!(string.image().len(), 4);
    assert_eq!(string.view_bytes(), "abc".as_bytes());
    assert_eq!(string.view_bytes().len(), 3);
    assert_eq!(string.len(), 3);
    assert_eq!(string.address(), 0x7000);
}

#[test]
fn empty_string_is_one_terminator() {
    assert_eq!(DdsString::allocation_size(&[]), Ok(1));
    let string = DdsString::new(&[], 0x10).unwrap();
    assert_eq!(string.image(), &[0]);
    assert_eq!(string.view_bytes().len(), 0);
    assert_eq!(string.len(), 0);
}

#[test]
fn null_from_the_allocator_is_out_of_resources() {
    assert_eq!(DdsString::new("abc".as_bytes(), 0).unwrap_err(), DDSError::OutOfResources);
    assert_eq!(DdsString::new(&[], 0).unwrap_err(), DDSError::OutOfResources);
}

#[test]
fn text_ends_at_the_first_zero() {
    let string = DdsString::new(&[0x61, 0, 0x62], 0x20).unwrap();
    assert_eq!(string.image(), &[0x61, 0, 0x62, 0]);
    assert_eq!(string.view_bytes(), &[0x61]);
    assert_eq!(string.len(), 1);
}

#[test]
fn text_len_of_plain_bytes() {
    assert_eq!(text_len(&[]), 0);
    assert_eq!(text_len(&[0]), 0);
    assert_eq!(text_len(&[1, 2, 3]), 3);
    assert_eq!(text_len(&[1, 2, 0, 3]), 2);
    assert_eq!(text_len(&[1, 2, 3, 0]), 3);
}

#[test]
fn string_is_freed_once() {
    let mut string = DdsString::new("abc".as_bytes(), 0x7000).unwrap();
    assert!(!string.is_released());
    assert_eq!(string.release(), Some(0x7000));
    assert!(string.is_released());
    assert_eq!(string.release(), None);
    assert_eq!(string.release(), None);
}
