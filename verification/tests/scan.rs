use synic::access::InterruptRequest;
use synic::global::GlobalSynic;
use synic::message::HvMessage;
use synic::processor::ProcessorSynic;
use synic::registers::HvError;
use synic::registers::VpIndex;
use synic::shared::SintProxied;

fn processor() -> ProcessorSynic {
    GlobalSynic::new(1).add_vp(VpIndex::new(0)).unwrap()
}

fn ready(synic: &mut ProcessorSynic) -> u16 {
    let mut interrupts: Vec<InterruptRequest> = vec![];
    let (ready, next) = synic.scan(0, &mut interrupts);
    assert_eq!(next, None);
    assert_eq!(interrupts, vec![]);
    ready
}

#[test]
fn nothing_is_reported_that_was_not_asked_for() {
    let mut synic = processor();
    assert_eq!(ready(&mut synic), 0);
}

#[test]
fn free_sources_are_reported_once() {
    let mut synic = processor();
    synic.request_sint_readiness(0b1000_0000_0001_0001).unwrap();
    assert_eq!(ready(&mut synic), 0b1000_0000_0001_0001);
    assert_eq!(ready(&mut synic), 0);
    synic.request_sint_readiness(0b0001_0000).unwrap();
    assert_eq!(ready(&mut synic), 0b0001_0000);
}

#[test]
fn all_sources_can_be_asked_for() {
    let mut synic = processor();
    synic.request_sint_readiness(0xffff).unwrap();
    assert_eq!(ready(&mut synic), 0xffff);
}

#[test]
fn full_slots_are_reported_when_they_are_emptied() {
    let mut synic = processor();
    synic.write_message_page(512, &[1]);
    synic.write_message_page(1280, &[1]);
    synic.request_sint_readiness(0b0010_0110).unwrap();
    assert_eq!(ready(&mut synic), 0b0000_0010);
    // Both messages were flagged, and nothing else.
    assert_eq!(synic.message_page().read(512, 6), vec![1, 0, 0, 0, 0, 1]);
    assert_eq!(synic.message_page().read(1280, 6), vec![1, 0, 0, 0, 0, 1]);
    assert_eq!(synic.message_page().read(256, 6), vec![0; 6]);
    assert_eq!(ready(&mut synic), 0);
    synic.write_message_page(1280, &[0]);
    assert_eq!(ready(&mut synic), 0b0010_0000);
    synic.write_message_page(512, &[0]);
    assert_eq!(ready(&mut synic), 0b0000_0100);
    assert_eq!(ready(&mut synic), 0);
}

#[test]
fn request_replaces_the_one_before() {
    let mut synic = processor();
    synic.request_sint_readiness(0b11).unwrap();
    synic.request_sint_readiness(0b100).unwrap();
    assert_eq!(ready(&mut synic), 0b100);
}

#[test]
fn proxied_sources_are_not_waited_for() {
    let mut synic = processor();
    synic.set_sint(4, 0x100031);
    synic.set_sint(15, 0x110031);
    synic.request_sint_readiness(0b11).unwrap();
    assert_eq!(synic.request_sint_readiness(1 << 4), Err(SintProxied));
    assert_eq!(synic.request_sint_readiness(1 << 15), Err(SintProxied));
    assert_eq!(synic.request_sint_readiness(0xffff), Err(SintProxied));
    // The request before is still there.
    assert_eq!(ready(&mut synic), 0b11);
    assert_eq!(synic.request_sint_readiness(0x7fef), Ok(()));
    assert_eq!(ready(&mut synic), 0x7fef);
    assert_eq!(synic.request_sint_readiness(0), Ok(()));
    synic.set_sint(4, 0x31);
    assert_eq!(synic.request_sint_readiness(1 << 4), Ok(()));
    assert_eq!(ready(&mut synic), 1 << 4);
}

#[test]
fn reported_source_takes_one_message() {
    let mut synic = processor();
    synic.set_sint(4, 0x31);
    synic.request_sint_readiness(1 << 4).unwrap();
    assert_eq!(ready(&mut synic), 1 << 4);
    let message = HvMessage::new(7, 0, &[]);
    let mut interrupts: Vec<InterruptRequest> = vec![];
    assert_eq!(synic.post_message(4, &message, &mut interrupts), Ok(()));
    assert_eq!(
        synic.post_message(4, &message, &mut interrupts),
        Err(HvError::ObjectInUse)
    );
    // The slot is full, and asked for again.
    synic.request_sint_readiness(1 << 4).unwrap();
    assert_eq!(ready(&mut synic), 0);
    synic.write_message_page(1024, &[0, 0, 0, 0]);
    assert_eq!(ready(&mut synic), 1 << 4);
    assert_eq!(synic.post_message(4, &message, &mut interrupts), Ok(()));
}

#[test]
fn readiness_is_kept_until_it_is_used() {
    let mut synic = processor();
    synic.set_sint(4, 0x31);
    synic.request_sint_readiness(1 << 4).unwrap();
    assert_eq!(ready(&mut synic), 1 << 4);
    // A source that is ready is reported without another look at its slot.
    synic.write_message_page(1024, &[1]);
    synic.request_sint_readiness(1 << 4).unwrap();
    assert_eq!(ready(&mut synic), 1 << 4);
    assert_eq!(synic.message_page().read(1024, 6), vec![1, 0, 0, 0, 0, 0]);
}

#[test]
fn messages_of_type_none_leave_their_slot_free() {
    let mut synic = processor();
    synic.set_sint(0, 0x31);
    let mut interrupts: Vec<InterruptRequest> = vec![];
    for _ in 0..2 {
        assert_eq!(
            synic.post_intercept_message(&HvMessage::new(0, 5, &[1]), &mut interrupts),
            Ok(())
        );
    }
    assert_eq!(interrupts.len(), 2);
}
