use synic::access::InterruptRequest;
use synic::access::RequestInterrupt;
use synic::global::GlobalSynic;
use synic::message::HvMessage;
use synic::message::HvMessageHeader;
use synic::message::TimerMessagePayload;
use synic::processor::ProcessorSynic;
use synic::registers::HvError;
use synic::registers::VpIndex;

fn processor() -> ProcessorSynic {
    GlobalSynic::new(1).add_vp(VpIndex::new(0)).unwrap()
}

fn message(typ: u32) -> HvMessage {
    HvMessage::new(typ, 0x1122334455667788, &[0xaa, 0xbb, 0xcc])
}

/// Makes a source ready for a message.
fn make_ready(synic: &mut ProcessorSynic, sint: u8) {
    synic.request_sint_readiness(1 << sint).unwrap();
    let mut interrupts: Vec<InterruptRequest> = vec![];
    assert_eq!(synic.scan(0, &mut interrupts).0, 1 << sint);
    assert_eq!(interrupts, vec![]);
}

#[test]
fn message_bytes() {
    let bytes = message(0x80000010).as_bytes();
    assert_eq!(bytes.len(), 256);
    assert_eq!(
        bytes[..19],
        [
            0x10, 0, 0, 0x80, 3, 0, 0, 0, 0x88, 0x77, 0x66, 0x55, 0x44, 0x33, 0x22, 0x11, 0xaa,
            0xbb, 0xcc
        ]
    );
    assert!(bytes[19..].iter().all(|&b| b == 0));
    let header = HvMessageHeader::read_from(&bytes);
    assert_eq!(header, message(0x80000010).header);
    assert_eq!(header.as_bytes(), bytes[..16]);
}

#[test]
fn header_bytes_are_little_endian() {
    let header = HvMessageHeader {
        typ: 0x01020304,
        len: 5,
        flags: 6,
        rsvd: 0x0708,
        id: 0x090a0b0c0d0e0f10,
    };
    assert_eq!(
        header.as_bytes(),
        [4, 3, 2, 1, 5, 6, 8, 7, 0x10, 0x0f, 0x0e, 0x0d, 0x0c, 0x0b, 0x0a, 9]
    );
    assert_eq!(HvMessageHeader::read_from(&header.as_bytes()), header);
    assert!(!header.message_pending());
    assert_eq!(header.with_message_pending().flags, 7);
}

#[test]
fn timer_payload_bytes() {
    let payload = TimerMessagePayload {
        timer_index: 2,
        reserved: 0,
        expiration_time: 0x0102,
        delivery_time: 0x0304,
    };
    let mut expected = vec![0u8; 24];
    expected[0] = 2;
    expected[8] = 2;
    expected[9] = 1;
    expected[16] = 4;
    expected[17] = 3;
    assert_eq!(payload.as_bytes(), expected);
}

#[test]
fn full_payloads_fit() {
    let message = HvMessage::new(1, 2, &[9; 240]);
    assert_eq!(message.header.len, 240);
    assert_eq!(message.as_bytes()[16..], [9; 240]);
}

#[test]
fn posted_message_stands_in_its_slot() {
    let mut synic = processor();
    synic.set_sint(3, 0x20031);
    make_ready(&mut synic, 3);
    let mut interrupts: Vec<InterruptRequest> = vec![];
    assert_eq!(synic.post_message(3, &message(7), &mut interrupts), Ok(()));
    assert_eq!(interrupts, vec![InterruptRequest { vector: 0x31, auto_eoi: true }]);
    let page = synic.message_page().read(0, 4096);
    assert_eq!(page[768..1024], message(7).as_bytes());
    assert!(page[..768].iter().all(|&b| b == 0));
    assert!(page[1024..].iter().all(|&b| b == 0));
}

#[test]
fn last_slot_ends_the_page() {
    let mut synic = processor();
    synic.set_sint(15, 0x31);
    make_ready(&mut synic, 15);
    let mut interrupts: Vec<InterruptRequest> = vec![];
    let message = HvMessage::new(7, 8, &[3; 240]);
    assert_eq!(synic.post_message(15, &message, &mut interrupts), Ok(()));
    assert_eq!(synic.message_page().read(3840, 256), message.as_bytes());
}

#[test]
fn polled_source_raises_no_interrupt() {
    let mut synic = processor();
    synic.set_sint(3, 0x40031);
    make_ready(&mut synic, 3);
    let mut interrupts: Vec<InterruptRequest> = vec![];
    assert_eq!(synic.post_message(3, &message(7), &mut interrupts), Ok(()));
    assert_eq!(interrupts, vec![]);
}

#[test]
fn second_message_is_refused() {
    let mut synic = processor();
    synic.set_sint(3, 0x31);
    make_ready(&mut synic, 3);
    let mut interrupts: Vec<InterruptRequest> = vec![];
    assert_eq!(synic.post_message(3, &message(7), &mut interrupts), Ok(()));
    assert_eq!(
        synic.post_message(3, &message(8), &mut interrupts),
        Err(HvError::ObjectInUse)
    );
    assert_eq!(interrupts.len(), 1);
    assert_eq!(synic.message_page().read(768, 256), message(7).as_bytes());
}

#[test]
fn source_that_is_not_ready_refuses_messages() {
    let mut synic = processor();
    synic.set_sint(3, 0x31);
    let mut interrupts: Vec<InterruptRequest> = vec![];
    assert_eq!(
        synic.post_message(3, &message(7), &mut interrupts),
        Err(HvError::ObjectInUse)
    );
    assert_eq!(synic.message_page().read(768, 256), vec![0; 256]);
}

#[test]
fn masked_and_proxied_sources_refuse_messages() {
    for sint in [0x10031, 0x100031, 0x110031] {
        let mut synic = processor();
        make_ready(&mut synic, 3);
        synic.set_sint(3, sint);
        let mut interrupts: Vec<InterruptRequest> = vec![];
        assert_eq!(
            synic.post_message(3, &message(7), &mut interrupts),
            Err(HvError::InvalidSynicState)
        );
        assert_eq!(interrupts, vec![]);
        assert_eq!(synic.message_page().read(0, 4096), vec![0; 4096]);
    }
}

#[test]
fn intercept_message_needs_no_request() {
    let mut synic = processor();
    synic.set_sint(0, 0x30);
    let mut interrupts: Vec<InterruptRequest> = vec![];
    assert_eq!(synic.post_intercept_message(&message(9), &mut interrupts), Ok(()));
    assert_eq!(interrupts, vec![InterruptRequest { vector: 0x30, auto_eoi: false }]);
    assert_eq!(synic.message_page().read(0, 256), message(9).as_bytes());
}

#[test]
fn intercept_message_for_a_full_slot_is_refused_and_flags_it() {
    let mut synic = processor();
    synic.set_sint(0, 0x30);
    let mut interrupts: Vec<InterruptRequest> = vec![];
    synic.post_intercept_message(&message(9), &mut interrupts).unwrap();
    for _ in 0..2 {
        assert_eq!(
            synic.post_intercept_message(&message(10), &mut interrupts),
            Err(HvError::ObjectInUse)
        );
        let mut expected = message(9).as_bytes();
        expected[5] = 1;
        assert_eq!(synic.message_page().read(0, 256), expected);
    }
    assert_eq!(interrupts.len(), 1);
    // The guest takes the message, and the slot is free again.
    synic.write_message_page(0, &[0, 0, 0, 0]);
    assert_eq!(synic.post_intercept_message(&message(10), &mut interrupts), Ok(()));
    assert_eq!(synic.message_page().read(0, 256), message(10).as_bytes());
}

#[test]
fn intercept_message_through_a_masked_source_is_refused() {
    let mut synic = processor();
    let mut interrupts: Vec<InterruptRequest> = vec![];
    assert_eq!(
        synic.post_intercept_message(&message(9), &mut interrupts),
        Err(HvError::InvalidSynicState)
    );
    // The look at the slot made the source ready.
    synic.set_sint(0, 0x30);
    assert_eq!(synic.post_message(0, &message(9), &mut interrupts), Ok(()));
}

#[test]
fn flagging_keeps_the_other_flags() {
    let mut synic = processor();
    synic.write_message_page(0, &[1, 0, 0, 0, 9, 0xf0, 3, 4, 5, 6, 7, 8, 9, 10, 11, 12]);
    let mut interrupts: Vec<InterruptRequest> = vec![];
    assert_eq!(
        synic.post_intercept_message(&message(9), &mut interrupts),
        Err(HvError::ObjectInUse)
    );
    assert_eq!(
        synic.message_page().read(0, 16),
        vec![1, 0, 0, 0, 9, 0xf1, 3, 4, 5, 6, 7, 8, 9, 10, 11, 12]
    );
}

#[test]
fn any_byte_of_the_type_fills_a_slot() {
    for byte in 0..4 {
        let mut synic = processor();
        synic.set_sint(0, 0x30);
        synic.write_message_page(byte, &[0x80]);
        let mut interrupts: Vec<InterruptRequest> = vec![];
        assert_eq!(
            synic.post_intercept_message(&message(9), &mut interrupts),
            Err(HvError::ObjectInUse)
        );
    }
    let mut synic = processor();
    synic.set_sint(0, 0x30);
    synic.write_message_page(4, &[0x80]);
    let mut interrupts: Vec<InterruptRequest> = vec![];
    assert_eq!(synic.post_intercept_message(&message(9), &mut interrupts), Ok(()));
}

struct Last(Option<u32>);

impl RequestInterrupt for Last {
    fn request_interrupt(&mut self, vector: u32, _auto_eoi: bool) {
        self.0 = Some(vector);
    }
}

#[test]
fn interrupt_controllers_of_any_kind_are_served() {
    let mut synic = processor();
    synic.set_sint(0, 0xff);
    let mut last = Last(None);
    let interrupt: &mut dyn RequestInterrupt = &mut last;
    assert_eq!(synic.post_intercept_message(&message(9), interrupt), Ok(()));
    assert_eq!(last.0, Some(0xff));
}
