use cyclonedds_sys::buffer::Allocator;
use cyclonedds_sys::buffer::Backing;
use cyclonedds_sys::buffer::Release;
use cyclonedds_sys::exchange::received;
use cyclonedds_sys::exchange::written;
use cyclonedds_sys::DDSError;
use cyclonedds_sys::DdsEntity;

#[test]
fn write_succeeds_on_zero_and_above() {
    assert_eq!(written(0), Ok(()));
    assert_eq!(written(3), Ok(()));
}

#[test]
fn write_failure_is_mapped() {
    assert_eq!(written(-1), Err(DDSError::DdsError));
    assert_eq!(written(-3), Err(DDSError::BadParameter));
    assert_eq!(written(-10), Err(DDSError::Timeout));
    assert_eq!(written(-20), Err(DDSError::DdsError));
}

#[test]
fn success_without_data_is_no_data() {
    let reader = DdsEntity::new(5);
    assert_eq!(received::<u64>(reader, 0, 0, false).unwrap_err(), DDSError::NoData);
    assert_eq!(received::<u64>(reader, 0, 0x1000, false).unwrap_err(), DDSError::NoData);
    assert_eq!(received::<u64>(reader, 0, 0x1000, true).unwrap_err(), DDSError::NoData);
    assert_eq!(received::<u64>(reader, 2, 0x1000, false).unwrap_err(), DDSError::NoData);
}

#[test]
fn read_failure_is_mapped() {
    let reader = DdsEntity::new(5);
    assert_eq!(received::<u64>(reader, -9, 0, false).unwrap_err(), DDSError::AlreadyDeleted);
    assert_eq!(received::<u64>(reader, -11, 0, false).unwrap_err(), DDSError::NoData);
    assert_eq!(received::<u64>(reader, -2, 0x1000, true).unwrap_err(), DDSError::Unsupported);
    assert_eq!(received::<u64>(reader, -14, 0, false).unwrap_err(), DDSError::DdsError);
}

#[test]
fn samples_come_as_a_loan_of_the_reported_count() {
    let reader = DdsEntity::new(5);
    let mut buffer = received::<u64>(reader, 3, 0x8000, true).unwrap();
    assert_eq!(buffer.allocator(), Allocator::Library);
    assert_eq!(buffer.backing(), Backing::Loan { address: 0x8000, entity: reader, count: 3 });
    assert_eq!(buffer.len(), 3);
    assert!(!buffer.is_released());
    assert_eq!(
        buffer.release(),
        Some(Release::ReturnLoan { entity: reader, address: 0x8000, count: 3 })
    );
    assert_eq!(buffer.release(), None);
}

#[test]
fn fewer_samples_than_asked_for() {
    let asked: i32 = 10;
    let came: i32 = 4;
    assert!(came < asked);
    let buffer = received::<u64>(DdsEntity::new(1), came, 0x100, true).unwrap();
    assert_eq!(buffer.len(), 4);
}
