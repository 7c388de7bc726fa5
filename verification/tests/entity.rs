use cyclonedds_sys::DdsEntity;
use cyclonedds_sys::DDS_FREE_ALL_BIT;
use cyclonedds_sys::DDS_FREE_CONTENTS_BIT;
use cyclonedds_sys::DDS_FREE_KEY_BIT;

#[test]
fn handle_round_trip() {
    assert_eq!(DdsEntity::new(42).entity(), 42);
    assert_eq!(DdsEntity::new(0).entity(), 0);
    assert_eq!(DdsEntity::new(-7).entity(), -7);
    assert_eq!(DdsEntity::new(i32::MAX).entity(), i32::MAX);
    assert_eq!(DdsEntity::new(i32::MIN).entity(), i32::MIN);
}

#[test]
fn handles_compare_by_value() {
    let a = DdsEntity::new(3);
    let b = a.clone();
    let c = a;
    assert!(a == b);
    assert!(a == c);
    assert!(a != DdsEntity::new(4));
}

#[test]
fn free_flags() {
    assert_eq!(DDS_FREE_KEY_BIT, 1);
    assert_eq!(DDS_FREE_CONTENTS_BIT, 2);
    assert_eq!(DDS_FREE_ALL_BIT, 4);
}
