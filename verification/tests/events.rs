use std::sync::Arc;
use synic::access::InterruptRequest;
use synic::access::RequestInterrupt;
use synic::access::UnprotectedPages;
use synic::global::GlobalSynic;
use synic::registers::HvSynicSint;
use synic::registers::VpIndex;
use synic::shared::add_processor;
use synic::shared::deliver_event;
use synic::shared::EventPage;
use synic::shared::SharedProcessorState;
use synic::shared::SintProxied;

fn vp(n: u32) -> VpIndex {
    VpIndex::new(n)
}

fn signal(
    global: &GlobalSynic,
    n: u32,
    sint: u8,
    flag: u16,
) -> (Result<bool, SintProxied>, Vec<InterruptRequest>) {
    let mut interrupts: Vec<InterruptRequest> = vec![];
    let reply = global.signal_event(vp(n), sint, flag, &mut interrupts);
    (reply, interrupts)
}

fn vector(vector: u32) -> InterruptRequest {
    InterruptRequest { vector, auto_eoi: false }
}

#[test]
fn event_is_signaled_once() {
    let global = GlobalSynic::new(2);
    let mut synic = global.add_vp(vp(1)).unwrap();
    synic.set_sint(2, 0x31);
    assert_eq!(signal(&global, 1, 2, 13), (Ok(true), vec![vector(0x31)]));
    assert_eq!(signal(&global, 1, 2, 13), (Ok(false), vec![]));
    let mut expected = vec![0u8; 4096];
    expected[512 + 1] = 0x20;
    assert_eq!(global.event_page(vp(1)).read(0, 4096), expected);
    // The guest clears the flag, and the event is news again.
    global.write_event_page(vp(1), 513, &[0]);
    assert_eq!(signal(&global, 1, 2, 13), (Ok(true), vec![vector(0x31)]));
    assert_eq!(signal(&global, 1, 2, 14), (Ok(true), vec![vector(0x31)]));
    assert_eq!(global.event_page(vp(1)).read(513, 1), vec![0x60]);
}

#[test]
fn unknown_and_offline_processors_take_no_events() {
    let global = GlobalSynic::new(2);
    assert_eq!(signal(&global, 2, 2, 13), (Ok(false), vec![]));
    assert_eq!(signal(&global, 7, 99, 65535), (Ok(false), vec![]));
    assert_eq!(signal(&global, 1, 2, 13), (Ok(false), vec![]));
    assert_eq!(global.event_page(vp(1)).read(0, 4096), vec![0; 4096]);
}

#[test]
fn masked_sources_take_no_events() {
    let global = GlobalSynic::new(1);
    let mut synic = global.add_vp(vp(0)).unwrap();
    assert_eq!(signal(&global, 0, 2, 13), (Ok(false), vec![]));
    synic.set_sint(2, 0x31);
    assert_eq!(signal(&global, 0, 2, 13).0, Ok(true));
    synic.set_sint(2, 0x10031);
    assert_eq!(signal(&global, 0, 2, 14), (Ok(false), vec![]));
    assert_eq!(global.event_page(vp(0)).read(513, 1), vec![0x20]);
}

#[test]
fn proxied_sources_are_an_error() {
    let global = GlobalSynic::new(1);
    let mut synic = global.add_vp(vp(0)).unwrap();
    synic.set_sint(2, 0x110031);
    assert_eq!(signal(&global, 0, 2, 13), (Err(SintProxied), vec![]));
    synic.set_scontrol(0);
    assert_eq!(signal(&global, 0, 2, 13), (Err(SintProxied), vec![]));
    assert_eq!(global.event_page(vp(0)).read(0, 4096), vec![0; 4096]);
}

#[test]
fn controller_that_is_off_takes_no_events() {
    let global = GlobalSynic::new(1);
    let mut synic = global.add_vp(vp(0)).unwrap();
    synic.set_sint(2, 0x31);
    synic.set_scontrol(0xfffe);
    assert_eq!(signal(&global, 0, 2, 13), (Ok(false), vec![]));
    synic.set_scontrol(1);
    assert_eq!(signal(&global, 0, 2, 13), (Ok(true), vec![vector(0x31)]));
}

#[test]
fn polled_source_sets_its_flag_without_an_interrupt() {
    let global = GlobalSynic::new(1);
    let mut synic = global.add_vp(vp(0)).unwrap();
    synic.set_sint(2, 0x40031);
    assert_eq!(signal(&global, 0, 2, 13), (Ok(true), vec![]));
    assert_eq!(signal(&global, 0, 2, 13), (Ok(false), vec![]));
}

#[test]
fn automatic_end_of_interrupt_is_passed_on() {
    let global = GlobalSynic::new(1);
    let mut synic = global.add_vp(vp(0)).unwrap();
    synic.set_sint(2, 0x20031);
    assert_eq!(
        signal(&global, 0, 2, 0),
        (Ok(true), vec![InterruptRequest { vector: 0x31, auto_eoi: true }])
    );
}

#[test]
fn flags_run_on_into_the_next_source() {
    let global = GlobalSynic::new(1);
    let mut synic = global.add_vp(vp(0)).unwrap();
    synic.set_sint(2, 0x31);
    synic.set_sint(3, 0x32);
    assert_eq!(signal(&global, 0, 2, 2047).0, Ok(true));
    assert_eq!(signal(&global, 0, 2, 2048).0, Ok(true));
    assert_eq!(signal(&global, 0, 3, 0), (Ok(false), vec![]));
    assert_eq!(global.event_page(vp(0)).read(767, 2), vec![0x80, 1]);
}

#[test]
fn flags_beyond_the_page() {
    let global = GlobalSynic::new(1);
    let mut synic = global.add_vp(vp(0)).unwrap();
    let mut interrupts: Vec<InterruptRequest> = vec![];
    assert_eq!(global.try_signal_event(vp(0), 15, 2048, &mut interrupts), Some(Ok(false)));
    synic.set_sint(15, 0x100031);
    assert_eq!(
        global.try_signal_event(vp(0), 15, 65535, &mut interrupts),
        Some(Err(SintProxied))
    );
    synic.set_sint(15, 0x31);
    assert_eq!(global.try_signal_event(vp(0), 15, 2048, &mut interrupts), None);
    assert_eq!(interrupts, vec![]);
    assert_eq!(global.event_page(vp(0)).read(0, 4096), vec![0; 4096]);
    assert_eq!(global.try_signal_event(vp(0), 15, 2047, &mut interrupts), Some(Ok(true)));
    assert_eq!(global.try_signal_event(vp(9), 15, 2048, &mut interrupts), Some(Ok(false)));
    assert_eq!(interrupts, vec![vector(0x31)]);
    assert_eq!(global.event_page(vp(0)).read(4095, 1), vec![0x80]);
}

#[test]
fn processors_are_added_once() {
    let global = GlobalSynic::new(2);
    let mut first = global.add_vp(vp(0)).unwrap();
    first.set_sint(2, 0x31);
    assert!(global.add_vp(vp(0)).is_none());
    // The processor that was there is left alone.
    assert_eq!(signal(&global, 0, 2, 1).0, Ok(true));
    assert!(global.add_vp(vp(1)).is_some());
}

#[test]
fn processors_have_their_own_state() {
    let global = GlobalSynic::new(2);
    let mut first = global.add_vp(vp(0)).unwrap();
    let mut second = global.add_vp(vp(1)).unwrap();
    first.set_sint(2, 0x31);
    second.set_sint(2, 0x32);
    assert_eq!(signal(&global, 0, 2, 1), (Ok(true), vec![vector(0x31)]));
    assert_eq!(signal(&global, 1, 2, 1), (Ok(true), vec![vector(0x32)]));
    first.reset();
    assert_eq!(first.sint(2), 0x10000);
    assert_eq!(signal(&global, 0, 2, 1), (Ok(false), vec![]));
    assert_eq!(global.event_page(vp(0)).read(512, 1), vec![0]);
    assert_eq!(global.event_page(vp(1)).read(512, 1), vec![2]);
}

#[test]
fn event_page_moves_with_its_register() {
    let global = GlobalSynic::new(1);
    let mut synic = global.add_vp(vp(0)).unwrap();
    let mut pages = UnprotectedPages::new(0x100);
    synic.set_sint(2, 0x31);
    synic.set_siefp(0x7001, &mut pages).unwrap();
    assert_eq!(global.event_page(vp(0)).gpn, Some(7));
    assert_eq!(signal(&global, 0, 2, 1).0, Ok(true));
    synic.set_siefp(0x8001, &mut pages).unwrap();
    assert_eq!(global.event_page(vp(0)).gpn, Some(8));
    assert_eq!(global.event_page(vp(0)).read(512, 1), vec![2]);
    synic.set_siefp(0x8000, &mut pages).unwrap();
    assert_eq!(global.event_page(vp(0)).gpn, None);
    assert_eq!(pages.requests.len(), 4);
}

#[test]
fn shared_state_on_its_own() {
    let mut state = SharedProcessorState::new(3);
    assert!(!state.online && !state.enabled);
    assert_eq!(state.takes_events(0), Ok(false));
    assert!(state.bring_online());
    assert!(state.online && state.enabled);
    assert_eq!(state.index, 3);
    assert_eq!(state.takes_events(0), Ok(false));
    state.sint[0] = HvSynicSint { bits: 0x44 };
    assert_eq!(state.takes_events(0), Ok(true));
    state.sint[1] = HvSynicSint { bits: 0x100044 };
    assert_eq!(state.takes_events(1), Err(SintProxied));
    // A processor that is online is left alone.
    assert!(!state.bring_online());
    assert_eq!(state.takes_events(0), Ok(true));
    state = SharedProcessorState::at_reset(3);
    assert!(state.online && state.enabled);
    assert_eq!(state.takes_events(0), Ok(false));
}

#[test]
fn event_page_on_its_own() {
    let mut page = EventPage::new(3);
    assert_eq!(page.index, 3);
    assert!(page.set_flag(0, 7));
    assert!(!page.set_flag(0, 7));
    assert!(page.set_flag(1, 0));
    assert_eq!(page.page.read(0, 1), vec![0x80]);
    assert_eq!(page.page.read(256, 1), vec![1]);
    assert_eq!(page.index, 3);
}

#[test]
fn events_are_delivered_to_a_state_and_a_page() {
    let mut state = SharedProcessorState::at_reset(0);
    let mut page = EventPage::new(0);
    let mut interrupts: Vec<InterruptRequest> = vec![];
    // A source that is masked, or proxied, takes no event, whatever its flag.
    assert_eq!(deliver_event(&state, &mut page, 2, 65535, &mut interrupts), Ok(false));
    state.sint[2] = HvSynicSint { bits: 0x100031 };
    assert_eq!(deliver_event(&state, &mut page, 2, 65535, &mut interrupts), Err(SintProxied));
    assert_eq!(page.page.read(0, 4096), vec![0; 4096]);
    assert_eq!(interrupts, vec![]);
    state.sint[2] = HvSynicSint { bits: 0x31 };
    assert_eq!(deliver_event(&state, &mut page, 2, 13, &mut interrupts), Ok(true));
    assert_eq!(deliver_event(&state, &mut page, 2, 13, &mut interrupts), Ok(false));
    let mut expected = vec![0u8; 4096];
    expected[513] = 0x20;
    assert_eq!(page.page.read(0, 4096), expected);
    assert_eq!(interrupts, vec![vector(0x31)]);
}

#[test]
fn processor_that_is_online_keeps_its_page() {
    let mut state = SharedProcessorState::new(0);
    let mut page = EventPage::new(0);
    assert!(page.set_flag(2, 13));
    assert!(add_processor(&mut state, &mut page));
    assert!(state.online && state.enabled);
    assert_eq!(page.page.read(0, 4096), vec![0; 4096]);
    assert!(page.set_flag(2, 13));
    assert!(!add_processor(&mut state, &mut page));
    assert_eq!(page.page.read(513, 1), vec![0x20]);
}

#[test]
fn source_and_control_writes_leave_the_event_page_alone() {
    let global = GlobalSynic::new(1);
    let mut synic = global.add_vp(vp(0)).unwrap();
    synic.set_sint(2, 0x31);
    assert_eq!(signal(&global, 0, 2, 13).0, Ok(true));
    synic.set_sint(2, 0x32);
    synic.set_scontrol(0);
    synic.set_scontrol(1);
    assert_eq!(global.event_page(vp(0)).read(513, 1), vec![0x20]);
    assert_eq!(signal(&global, 0, 2, 13), (Ok(false), vec![]));
}

/// Signals the next flag of its source with each interrupt, up to a limit.
struct Chain {
    global: Arc<GlobalSynic>,
    next: u16,
    limit: u16,
    vectors: Vec<u32>,
}

impl RequestInterrupt for Chain {
    fn request_interrupt(&mut self, vector: u32, _auto_eoi: bool) {
        self.vectors.push(vector);
        if self.next < self.limit {
            let flag = self.next;
            self.next += 1;
            let global = self.global.clone();
            assert_eq!(global.signal_event(vp(0), 2, flag, self), Ok(true));
        }
    }
}

#[test]
fn interrupt_handlers_can_signal_events() {
    let global = Arc::new(GlobalSynic::new(1));
    let mut synic = global.add_vp(vp(0)).unwrap();
    synic.set_sint(2, 0x31);
    let mut chain = Chain { global: global.clone(), next: 1, limit: 4, vectors: vec![] };
    assert_eq!(global.signal_event(vp(0), 2, 0, &mut chain), Ok(true));
    assert_eq!(chain.vectors, vec![0x31; 4]);
    assert_eq!(global.event_page(vp(0)).read(512, 1), vec![0xf]);
}

#[test]
fn page_that_stays_in_place_keeps_its_flags() {
    let global = GlobalSynic::new(1);
    let mut synic = global.add_vp(vp(0)).unwrap();
    let mut pages = UnprotectedPages::new(0x100);
    synic.set_sint(2, 0x31);
    synic.set_siefp(0x7001, &mut pages).unwrap();
    assert_eq!(signal(&global, 0, 2, 3).0, Ok(true));
    let requests = pages.requests.len();
    synic.set_siefp(0x7003, &mut pages).unwrap();
    assert_eq!(synic.siefp(), 0x7003);
    assert_eq!(pages.requests.len(), requests);
    assert_eq!(global.event_page(vp(0)).gpn, Some(7));
    assert_eq!(global.event_page(vp(0)).read(512, 1), vec![8]);
    assert_eq!(signal(&global, 0, 2, 3).0, Ok(false));
}

#[test]
fn reset_is_seen_by_others() {
    let global = GlobalSynic::new(1);
    let mut synic = global.add_vp(vp(0)).unwrap();
    let mut pages = UnprotectedPages::new(0x100);
    synic.set_sint(2, 0x31);
    synic.set_siefp(0x7001, &mut pages).unwrap();
    synic.set_scontrol(0);
    synic.reset();
    assert_eq!(global.event_page(vp(0)).gpn, None);
    assert_eq!(signal(&global, 0, 2, 3), (Ok(false), vec![]));
    // The controller is on again, and the source only masked.
    synic.set_sint(2, 0x32);
    assert_eq!(signal(&global, 0, 2, 3), (Ok(true), vec![vector(0x32)]));
    // A reset processor is still there.
    assert!(global.add_vp(vp(0)).is_none());
}

#[test]
fn events_share_no_bit_between_processors() {
    let global = GlobalSynic::new(3);
    let mut synics: Vec<_> = (0..3).map(|n| global.add_vp(vp(n)).unwrap()).collect();
    for (n, synic) in synics.iter_mut().enumerate() {
        synic.set_sint(2, 0x31 + n as u64);
    }
    assert_eq!(signal(&global, 1, 2, 0), (Ok(true), vec![vector(0x32)]));
    assert_eq!(global.event_page(vp(0)).read(0, 4096), vec![0; 4096]);
    assert_eq!(global.event_page(vp(2)).read(0, 4096), vec![0; 4096]);
    assert_eq!(signal(&global, 2, 2, 0), (Ok(true), vec![vector(0x33)]));
    synics[1].set_scontrol(0);
    assert_eq!(signal(&global, 0, 2, 0), (Ok(true), vec![vector(0x31)]));
    assert_eq!(signal(&global, 1, 2, 1), (Ok(false), vec![]));
}

#[test]
fn partition_can_be_shared() {
    let global = Arc::new(GlobalSynic::new(1));
    let other = global.clone();
    let mut synic = global.add_vp(vp(0)).unwrap();
    synic.set_sint(2, 0x31);
    assert_eq!(signal(&other, 0, 2, 1).0, Ok(true));
    assert_eq!(signal(&global, 0, 2, 1).0, Ok(false));
}
