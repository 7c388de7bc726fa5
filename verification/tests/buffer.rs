use cyclonedds_sys::buffer::Allocator;
use cyclonedds_sys::buffer::Backing;
use cyclonedds_sys::buffer::OwnedBuffer;
use cyclonedds_sys::buffer::Release;
use cyclonedds_sys::DdsEntity;
use cyclonedds_sys::DDS_FREE_ALL_BIT;

struct Counters {
    host_frees: u32,
    sample_frees: u32,
    loans_returned: u32,
}

fn perform(action: Option<Release>, counters: &mut Counters) {
    match action {
        Some(Release::HostFree) => counters.host_frees += 1,
        Some(Release::FreeSample { .. }) => counters.sample_frees += 1,
        Some(Release::ReturnLoan { .. }) => counters.loans_returned += 1,
        None => {}
    }
}

#[test]
fn host_buffer_is_freed_by_the_host() {
    let mut buffer = OwnedBuffer::from_host(String::from("sample"));
    assert_eq!(buffer.allocator(), Allocator::Host);
    assert_eq!(buffer.backing(), Backing::Host);
    assert_eq!(buffer.len(), 1);
    assert_eq!(buffer.borrow().unwrap(), &[String::from("sample")]);
    assert_eq!(buffer.release(), Some(Release::HostFree));
    assert!(buffer.borrow().is_none());
}

#[test]
fn sample_is_freed_by_the_middleware() {
    let mut buffer: OwnedBuffer<u64> = OwnedBuffer::from_sample(0x1000);
    assert_eq!(buffer.allocator(), Allocator::Library);
    assert_eq!(buffer.backing(), Backing::Sample { address: 0x1000 });
    assert_eq!(buffer.len(), 1);
    assert_eq!(
        buffer.release(),
        Some(Release::FreeSample { address: 0x1000, flags: DDS_FREE_ALL_BIT })
    );
}

#[test]
fn loan_goes_back_to_its_entity() {
    let reader = DdsEntity::new(17);
    let mut buffer: OwnedBuffer<u64> = OwnedBuffer::from_loan(0x2000, reader, 5);
    assert_eq!(buffer.allocator(), Allocator::Library);
    assert_eq!(buffer.backing(), Backing::Loan { address: 0x2000, entity: reader, count: 5 });
    assert!(buffer.borrow().is_none());
    assert_eq!(
        buffer.release(),
        Some(Release::ReturnLoan { entity: reader, address: 0x2000, count: 5 })
    );
}

#[test]
fn release_asks_once_and_never_again() {
    let mut buffer: OwnedBuffer<u8> = OwnedBuffer::from_loan(0x2000, DdsEntity::new(1), 3);
    assert!(!buffer.is_released());
    assert!(buffer.release().is_some());
    assert!(buffer.is_released());
    assert_eq!(buffer.release(), None);
    assert_eq!(buffer.release(), None);
    assert!(buffer.is_released());
}

#[test]
fn each_of_many_buffers_is_released_once() {
    let mut counters = Counters { host_frees: 0, sample_frees: 0, loans_returned: 0 };
    let mut n: u32 = 0;
    while n < 10 {
        let mut buffer: OwnedBuffer<u8> =
            OwnedBuffer::from_loan(0x1000 + n as usize, DdsEntity::new(9), n + 1);
        perform(buffer.release(), &mut counters);
        perform(buffer.release(), &mut counters);
        n += 1;
    }
    assert_eq!(counters.loans_returned, 10);
    assert_eq!(counters.host_frees, 0);
    assert_eq!(counters.sample_frees, 0);
}

#[test]
fn release_follows_the_tag() {
    let mut counters = Counters { host_frees: 0, sample_frees: 0, loans_returned: 0 };
    let mut host = OwnedBuffer::from_host(1u8);
    perform(host.release(), &mut counters);
    assert_eq!(counters.host_frees, 1);
    assert_eq!(counters.sample_frees + counters.loans_returned, 0);
    let mut loan: OwnedBuffer<u8> = OwnedBuffer::from_loan(0x4000, DdsEntity::new(2), 1);
    perform(loan.release(), &mut counters);
    assert_eq!(counters.host_frees, 1);
    assert_eq!(counters.loans_returned, 1);
    let mut sample: OwnedBuffer<u8> = OwnedBuffer::from_sample(0x5000);
    perform(sample.release(), &mut counters);
    assert_eq!(counters.host_frees, 1);
    assert_eq!(counters.sample_frees, 1);
    assert_eq!(counters.loans_returned, 1);
}

#[test]
fn borrow_length_is_the_count() {
    let buffer: OwnedBuffer<u32> = OwnedBuffer::from_loan(0x3000, DdsEntity::new(4), 5);
    assert_eq!(buffer.len(), 5);
    let none: OwnedBuffer<u32> = OwnedBuffer::from_loan(0x3000, DdsEntity::new(4), 0);
    assert_eq!(none.len(), 0);
    assert_eq!(OwnedBuffer::from_host(3u32).len(), 1);
}

#[test]
fn nothing_can_be_borrowed_after_release() {
    let mut buffer: OwnedBuffer<u32> = OwnedBuffer::from_loan(0x3000, DdsEntity::new(4), 5);
    buffer.release();
    assert_eq!(buffer.len(), 0);
    assert_eq!(
        buffer.backing(),
        Backing::Loan { address: 0x3000, entity: DdsEntity::new(4), count: 5 }
    );
    let mut host = OwnedBuffer::from_host(7u32);
    assert_eq!(host.borrow().unwrap(), &[7]);
    host.release();
    assert_eq!(host.len(), 0);
    assert!(host.borrow().is_none());
}
