use synic::access::InterruptRequest;
use synic::global::GlobalSynic;
use synic::processor::ProcessorSynic;
use synic::registers::HvSynicStimerConfig;
use synic::registers::VpIndex;
use synic::sint::SintState;
use synic::timer::Timer;

const ENABLED: u64 = 1;
const PERIODIC: u64 = 2;
const DIRECT: u64 = 0x1000;

fn direct(vector: u64) -> u64 {
    DIRECT | vector << 4
}

fn sint(n: u64) -> u64 {
    n << 16
}

fn processor() -> ProcessorSynic {
    GlobalSynic::new(1).add_vp(VpIndex::new(0)).unwrap()
}

fn scan(synic: &mut ProcessorSynic, now: u64) -> (Option<u64>, Vec<InterruptRequest>) {
    let mut interrupts: Vec<InterruptRequest> = vec![];
    let (ready, next) = synic.scan(now, &mut interrupts);
    assert_eq!(ready, 0);
    (next, interrupts)
}

fn vector(vector: u32) -> InterruptRequest {
    InterruptRequest { vector, auto_eoi: false }
}

#[test]
fn idle_timers_do_nothing() {
    let mut synic = processor();
    assert_eq!(scan(&mut synic, 100), (None, vec![]));
}

#[test]
fn one_shot_timer_expires_once() {
    let mut synic = processor();
    synic.set_stimer_config(0, ENABLED | direct(0x55));
    synic.set_stimer_count(0, 100);
    assert_eq!(scan(&mut synic, 10), (Some(100), vec![]));
    assert_eq!(scan(&mut synic, 99), (Some(100), vec![]));
    assert_eq!(synic.stimer_config(0), ENABLED | direct(0x55));
    assert_eq!(scan(&mut synic, 100), (None, vec![vector(0x55)]));
    assert_eq!(synic.stimer_config(0), direct(0x55));
    assert_eq!(synic.stimer_count(0), 100);
    assert_eq!(scan(&mut synic, 1000), (None, vec![]));
}

#[test]
fn periodic_timer_runs_on() {
    let mut synic = processor();
    synic.set_stimer_config(1, ENABLED | PERIODIC | direct(0x56));
    synic.set_stimer_count(1, 100);
    assert_eq!(scan(&mut synic, 10), (Some(110), vec![]));
    assert_eq!(scan(&mut synic, 109), (Some(110), vec![]));
    assert_eq!(scan(&mut synic, 115), (Some(215), vec![vector(0x56)]));
    assert_eq!(scan(&mut synic, 215), (Some(315), vec![vector(0x56)]));
    assert_eq!(synic.stimer_config(1), ENABLED | PERIODIC | direct(0x56));
}

#[test]
fn disabled_timers_and_timers_without_a_count_do_not_run() {
    let mut synic = processor();
    synic.set_stimer_config(0, direct(0x55));
    synic.set_stimer_count(0, 100);
    synic.set_stimer_config(1, ENABLED | direct(0x55));
    synic.set_stimer_count(1, 0);
    assert_eq!(scan(&mut synic, 1000), (None, vec![]));
    // Disabling a timer that runs stops it.
    synic.set_stimer_config(2, ENABLED | direct(0x55));
    synic.set_stimer_count(2, 2000);
    assert_eq!(scan(&mut synic, 1000), (Some(2000), vec![]));
    synic.set_stimer_config(2, direct(0x55));
    assert_eq!(scan(&mut synic, 3000), (None, vec![]));
}

#[test]
fn earliest_time_is_returned() {
    let mut synic = processor();
    for (n, count) in [300, 200, 500, 400].into_iter().enumerate() {
        synic.set_stimer_config(n, ENABLED | direct(0x50 + n as u64));
        synic.set_stimer_count(n, count);
    }
    assert_eq!(scan(&mut synic, 0), (Some(200), vec![]));
    assert_eq!(scan(&mut synic, 250), (Some(300), vec![vector(0x51)]));
    assert_eq!(scan(&mut synic, 500), (None, vec![vector(0x50), vector(0x52), vector(0x53)]));
}

#[test]
fn clock_wraps_around() {
    let mut synic = processor();
    synic.set_stimer_config(0, ENABLED | PERIODIC | direct(0x55));
    synic.set_stimer_count(0, 10);
    assert_eq!(scan(&mut synic, u64::MAX - 3), (Some(6), vec![]));
    assert_eq!(scan(&mut synic, u64::MAX), (Some(6), vec![]));
    assert_eq!(scan(&mut synic, 6), (Some(16), vec![vector(0x55)]));
}

#[test]
fn half_of_the_clock_is_ahead() {
    let mut synic = processor();
    synic.set_stimer_config(0, ENABLED | direct(0x55));
    synic.set_stimer_count(0, (1 << 63) - 1);
    assert_eq!(scan(&mut synic, 0), (Some((1 << 63) - 1), vec![]));
    synic.set_stimer_count(0, 1 << 63);
    assert_eq!(scan(&mut synic, 0), (None, vec![vector(0x55)]));
}

#[test]
fn expiration_message_is_posted() {
    let mut synic = processor();
    synic.set_sint(4, 0x20060);
    synic.set_stimer_config(3, ENABLED | sint(4));
    synic.set_stimer_count(3, 0x1234);
    assert_eq!(
        scan(&mut synic, 0x2345),
        (None, vec![InterruptRequest { vector: 0x60, auto_eoi: true }])
    );
    let mut expected = vec![0u8; 256];
    expected[..6].copy_from_slice(&[0x10, 0, 0, 0x80, 24, 0]);
    expected[16] = 3;
    expected[24..26].copy_from_slice(&[0x34, 0x12]);
    expected[32..34].copy_from_slice(&[0x45, 0x23]);
    assert_eq!(synic.message_page().read(1024, 256), expected);
    assert_eq!(synic.stimer_config(3), sint(4));
}

#[test]
fn timer_waits_for_its_slot() {
    let mut synic = processor();
    synic.set_sint(4, 0x60);
    synic.write_message_page(1024, &[1]);
    synic.set_stimer_config(0, ENABLED | PERIODIC | sint(4));
    synic.set_stimer_count(0, 100);
    assert_eq!(scan(&mut synic, 0), (Some(100), vec![]));
    assert_eq!(scan(&mut synic, 150), (None, vec![]));
    // The message in the slot is flagged.
    assert_eq!(synic.message_page().read(1024, 6), vec![1, 0, 0, 0, 0, 1]);
    synic.write_message_page(1024, &[0, 0, 0, 0]);
    assert_eq!(scan(&mut synic, 170), (Some(270), vec![vector(0x60)]));
    // Due at 100, delivered at 170.
    assert_eq!(synic.message_page().read(1048, 1), vec![100]);
    assert_eq!(synic.message_page().read(1056, 1), vec![170]);
}

#[test]
fn timer_waits_for_a_closed_source() {
    for closed in [0x10060, 0x100060] {
        let mut synic = processor();
        synic.set_sint(4, closed);
        synic.set_stimer_config(0, ENABLED | sint(4));
        synic.set_stimer_count(0, 100);
        assert_eq!(scan(&mut synic, 200), (None, vec![]));
        assert_eq!(synic.stimer_config(0), ENABLED | sint(4));
        synic.set_sint(4, 0x60);
        assert_eq!(scan(&mut synic, 300), (None, vec![vector(0x60)]));
        assert_eq!(synic.stimer_config(0), sint(4));
    }
}

#[test]
fn timer_leaves_promised_slots_alone() {
    let mut synic = processor();
    synic.set_sint(4, 0x60);
    synic.set_stimer_config(0, ENABLED | sint(4));
    synic.set_stimer_count(0, 100);
    synic.request_sint_readiness(1 << 4).unwrap();
    let mut interrupts: Vec<InterruptRequest> = vec![];
    assert_eq!(synic.scan(200, &mut interrupts), (1 << 4, None));
    assert_eq!(interrupts, vec![]);
    // Once the source was reported, the timer may use its slot.
    assert_eq!(scan(&mut synic, 300), (None, vec![vector(0x60)]));
}

#[test]
fn two_timers_share_a_slot_in_turn() {
    let mut synic = processor();
    synic.set_sint(4, 0x60);
    for n in 0..2 {
        synic.set_stimer_config(n, ENABLED | sint(4));
        synic.set_stimer_count(n, 100);
    }
    assert_eq!(scan(&mut synic, 200), (None, vec![vector(0x60)]));
    assert_eq!(synic.message_page().read(1040, 1), vec![0]);
    assert_eq!(synic.message_page().read(1029, 1), vec![1]);
    synic.write_message_page(1024, &[0, 0, 0, 0]);
    assert_eq!(scan(&mut synic, 200), (None, vec![vector(0x60)]));
    assert_eq!(synic.message_page().read(1040, 1), vec![1]);
}

#[test]
fn evaluation_of_one_timer() {
    let mut timer = Timer::default();
    let mut sints = SintState::default();
    let mut interrupts: Vec<InterruptRequest> = vec![];
    assert_eq!(timer.evaluate(0, &mut sints, 5, &mut interrupts), None);
    timer.set_config(ENABLED | PERIODIC | direct(0x21));
    timer.set_count(7);
    assert!(timer.reevaluate);
    assert_eq!(timer.evaluate(0, &mut sints, 5, &mut interrupts), Some(12));
    assert!(!timer.reevaluate);
    assert_eq!(timer.due_time, Some(12));
    assert_eq!(timer.evaluate(0, &mut sints, 12, &mut interrupts), Some(19));
    assert_eq!(interrupts, vec![vector(0x21)]);
}

#[test]
fn configuration_fields() {
    let config = HvSynicStimerConfig { bits: 0xfffff };
    assert!(config.enabled() && config.periodic() && config.auto_enable() && config.direct_mode());
    assert_eq!(config.apic_vector(), 0xff);
    assert_eq!(config.sint(), 15);
    assert_eq!(config.with_enabled(false).bits, 0xffffe);
    assert_eq!(HvSynicStimerConfig { bits: 0xabcd0 }.apic_vector(), 0xcd);
    assert_eq!(HvSynicStimerConfig { bits: 0xabcd0 }.sint(), 0xa);
    assert!(!HvSynicStimerConfig { bits: 0xfeff0 }.direct_mode());
}
