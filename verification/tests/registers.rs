use synic::access::OverlayRequest;
use synic::access::UnprotectedPages;
use synic::access::VtlProtectAccess;
use synic::global::GlobalSynic;
use synic::processor::ProcessorSynic;
use synic::registers::HvError;
use synic::registers::HvRegisterName;
use synic::registers::HvRegisterValue;
use synic::registers::HvRegisterVsmVina;
use synic::registers::MsrError;
use synic::registers::VpIndex;
use synic::registers::HV_X64_MSR_EOM;
use synic::registers::HV_X64_MSR_SCONTROL;
use synic::registers::HV_X64_MSR_SIEFP;
use synic::registers::HV_X64_MSR_SIMP;
use synic::registers::HV_X64_MSR_SINT0;
use synic::registers::HV_X64_MSR_SINT15;
use synic::registers::HV_X64_MSR_STIMER0_CONFIG;
use synic::registers::HV_X64_MSR_STIMER3_COUNT;
use synic::registers::HV_X64_MSR_SVERSION;

fn processor() -> ProcessorSynic {
    GlobalSynic::new(1).add_vp(VpIndex::new(0)).unwrap()
}

fn pages() -> UnprotectedPages {
    UnprotectedPages::new(0x1000)
}

fn reg(number: u32) -> HvRegisterName {
    HvRegisterName { number }
}

fn value(v: u64) -> HvRegisterValue {
    HvRegisterValue::from_u64(v)
}

const ALL_MSRS: [u32; 29] = [
    0x40000080, 0x40000081, 0x40000082, 0x40000083, 0x40000084, 0x40000090, 0x40000091, 0x40000092,
    0x40000093, 0x40000094, 0x40000095, 0x40000096, 0x40000097, 0x40000098, 0x40000099, 0x4000009a,
    0x4000009b, 0x4000009c, 0x4000009d, 0x4000009e, 0x4000009f, 0x400000b0, 0x400000b1, 0x400000b2,
    0x400000b3, 0x400000b4, 0x400000b5, 0x400000b6, 0x400000b7,
];

#[test]
fn values_after_reset() {
    let mut synic = processor();
    for round in 0..2 {
        for msr in ALL_MSRS {
            let expected = match msr {
                0x40000080 | 0x40000081 => 1,
                0x40000090..=0x4000009f => 0x10000,
                _ => 0,
            };
            assert_eq!(synic.read_msr(msr), Ok(expected), "msr {msr:#x} round {round}");
        }
        assert_eq!(synic.vina(), HvRegisterVsmVina { bits: 0 });
        for msr in ALL_MSRS {
            let _ = synic.write_msr(msr, 0x5000, &mut pages());
        }
        synic.write_reg(reg(0x000d0005), value(0x1ff), &mut pages()).unwrap();
        synic.reset();
    }
}

#[test]
fn msrs_read_back_what_was_written() {
    let mut synic = processor();
    let mut pages = pages();
    for (i, msr) in ALL_MSRS.into_iter().enumerate() {
        let v = 0x7001 + ((i as u64) << 20);
        match msr {
            HV_X64_MSR_SVERSION => {
                assert_eq!(synic.write_msr(msr, v, &mut pages), Err(MsrError::InvalidAccess));
                assert_eq!(synic.read_msr(msr), Ok(1));
            }
            HV_X64_MSR_EOM => {
                assert_eq!(synic.write_msr(msr, v, &mut pages), Ok(()));
                assert_eq!(synic.read_msr(msr), Ok(0));
            }
            HV_X64_MSR_SIEFP | HV_X64_MSR_SIMP => {
                assert_eq!(synic.write_msr(msr, 0x7001, &mut pages), Ok(()));
                assert_eq!(synic.read_msr(msr), Ok(0x7001));
            }
            _ => {
                assert_eq!(synic.write_msr(msr, v, &mut pages), Ok(()));
                assert_eq!(synic.read_msr(msr), Ok(v));
            }
        }
    }
}

#[test]
fn msr_writes_reach_no_other_msr() {
    for msr in ALL_MSRS {
        let mut synic = processor();
        let before: Vec<_> = ALL_MSRS.iter().map(|&m| synic.read_msr(m)).collect();
        let _ = synic.write_msr(msr, 0x3001, &mut pages());
        for (i, other) in ALL_MSRS.into_iter().enumerate() {
            if other != msr {
                assert_eq!(synic.read_msr(other), before[i], "{msr:#x} {other:#x}");
            }
        }
    }
}

#[test]
fn unknown_msrs_are_refused() {
    let mut synic = processor();
    for msr in [0x40000085, 0x4000008f, 0x400000a0, 0x400000af, 0x400000b8, 0, u32::MAX] {
        assert_eq!(synic.read_msr(msr), Err(MsrError::Unknown));
        assert_eq!(synic.write_msr(msr, 1, &mut pages()), Err(MsrError::Unknown));
        assert_eq!(synic.read_nontimer_msr(msr), Err(MsrError::Unknown));
        assert_eq!(synic.write_nontimer_msr(msr, 1, &mut pages()), Err(MsrError::Unknown));
    }
}

#[test]
fn nontimer_access_does_not_reach_the_timers() {
    let mut synic = processor();
    for msr in [HV_X64_MSR_STIMER0_CONFIG, HV_X64_MSR_STIMER3_COUNT] {
        assert_eq!(synic.read_nontimer_msr(msr), Err(MsrError::Unknown));
        assert_eq!(synic.write_nontimer_msr(msr, 9, &mut pages()), Err(MsrError::Unknown));
        assert_eq!(synic.read_msr(msr), Ok(0));
    }
    assert_eq!(synic.write_nontimer_msr(HV_X64_MSR_SINT15, 9, &mut pages()), Ok(()));
    assert_eq!(synic.read_nontimer_msr(HV_X64_MSR_SINT15), Ok(9));
}

#[test]
fn getters_agree_with_the_msrs() {
    let mut synic = processor();
    let mut pages = pages();
    synic.set_siefp(0x8001, &mut pages).unwrap();
    synic.set_simp(0x9001, &mut pages).unwrap();
    synic.set_scontrol(0x10);
    synic.set_sint(3, 0x12345);
    synic.set_stimer_config(2, 0x30000);
    synic.set_stimer_count(1, 77);
    synic.set_eom(5);
    assert_eq!(synic.siefp(), 0x8001);
    assert_eq!(synic.simp(), 0x9001);
    assert_eq!(synic.scontrol(), 0x10);
    assert_eq!(synic.sversion(), 1);
    assert_eq!(synic.eom(), 0);
    assert_eq!(synic.sint(3), 0x12345);
    assert_eq!(synic.stimer_config(2), 0x30000);
    assert_eq!(synic.stimer_count(1), 77);
    assert_eq!(synic.read_msr(HV_X64_MSR_SIEFP), Ok(0x8001));
    assert_eq!(synic.read_msr(HV_X64_MSR_SIMP), Ok(0x9001));
    assert_eq!(synic.read_msr(HV_X64_MSR_SCONTROL), Ok(0x10));
    assert_eq!(synic.read_msr(HV_X64_MSR_SINT0 + 3), Ok(0x12345));
    assert_eq!(synic.read_msr(HV_X64_MSR_STIMER0_CONFIG + 4), Ok(0x30000));
    assert_eq!(synic.read_msr(HV_X64_MSR_STIMER0_CONFIG + 3), Ok(77));
}

#[test]
fn count_write_enables_a_timer_that_is_to_be_enabled_so() {
    let mut synic = processor();
    synic.set_stimer_config(0, 0x30008);
    synic.set_stimer_count(0, 0);
    assert_eq!(synic.stimer_config(0), 0x30008);
    synic.set_stimer_count(0, 5);
    assert_eq!(synic.stimer_config(0), 0x30009);
    synic.set_stimer_config(1, 0x30000);
    synic.set_stimer_count(1, 5);
    assert_eq!(synic.stimer_config(1), 0x30000);
}

#[test]
fn register_names_stand_for_msrs() {
    for n in 0..16 {
        assert_eq!(ProcessorSynic::reg_to_msr(reg(0x000a0000 + n)), Ok(0x40000090 + n));
    }
    for n in 0..5 {
        assert_eq!(ProcessorSynic::reg_to_msr(reg(0x000a0010 + n)), Ok(0x40000080 + n));
    }
    for n in 0..8 {
        assert_eq!(ProcessorSynic::reg_to_msr(reg(0x000b0000 + n)), Ok(0x400000b0 + n));
    }
    for number in [0x000a0015, 0x0009ffff, 0x000b0008, 0x000affff, 0x000d0005, 0] {
        assert_eq!(
            ProcessorSynic::reg_to_msr(reg(number)),
            Err(HvError::UnknownRegisterName)
        );
    }
}

#[test]
fn msr_errors_become_register_errors() {
    assert_eq!(
        ProcessorSynic::msrerr_to_hverr(MsrError::Unknown),
        HvError::UnknownRegisterName
    );
    assert_eq!(
        ProcessorSynic::msrerr_to_hverr(MsrError::InvalidAccess),
        HvError::InvalidParameter
    );
}

#[test]
fn registers_read_back_what_was_written() {
    let mut synic = processor();
    let mut pages = pages();
    assert_eq!(synic.write_reg(reg(0x000a0004), value(0x40), &mut pages), Ok(()));
    assert_eq!(synic.read_reg(reg(0x000a0004)), Ok(value(0x40)));
    assert_eq!(synic.sint(4), 0x40);
    assert_eq!(synic.write_reg(reg(0x000b0003), value(99), &mut pages), Ok(()));
    assert_eq!(synic.read_reg(reg(0x000b0003)), Ok(value(99)));
    assert_eq!(synic.stimer_count(1), 99);
    let wide = HvRegisterValue { bits: (7u128 << 64) | 0x41 };
    assert_eq!(synic.write_reg(reg(0x000a0005), wide, &mut pages), Ok(()));
    assert_eq!(synic.read_reg(reg(0x000a0005)), Ok(value(0x41)));
    assert_eq!(synic.write_reg(reg(0x000a0014), value(3), &mut pages), Ok(()));
    assert_eq!(synic.read_reg(reg(0x000a0014)), Ok(value(0)));
}

#[test]
fn register_errors() {
    let mut synic = processor();
    let mut pages = pages();
    assert_eq!(
        synic.write_reg(reg(0x000a0011), value(3), &mut pages),
        Err(HvError::InvalidParameter)
    );
    assert_eq!(
        synic.write_reg(reg(0x000a0015), value(3), &mut pages),
        Err(HvError::UnknownRegisterName)
    );
    assert_eq!(synic.read_reg(reg(0x000a0015)), Err(HvError::UnknownRegisterName));
    assert_eq!(
        synic.write_reg(reg(0x000a0012), value(0x1000_0001), &mut pages),
        Err(HvError::InvalidParameter)
    );
    assert_eq!(synic.siefp(), 0);
}

#[test]
fn vina_takes_no_reserved_bits() {
    let mut synic = processor();
    let mut pages = pages();
    assert_eq!(synic.write_reg(reg(0x000d0005), value(0x7ff), &mut pages), Ok(()));
    assert_eq!(synic.read_reg(reg(0x000d0005)), Ok(value(0x7ff)));
    assert_eq!(synic.vina(), HvRegisterVsmVina { bits: 0x7ff });
    assert_eq!(
        synic.write_reg(reg(0x000d0005), value(0x800), &mut pages),
        Err(HvError::InvalidParameter)
    );
    assert_eq!(synic.vina(), HvRegisterVsmVina { bits: 0x7ff });
}

#[test]
fn pages_move_with_their_registers() {
    let mut synic = processor();
    let mut pages = pages();
    assert_eq!(synic.message_page().gpn, None);
    synic.set_simp(0x7000, &mut pages).unwrap();
    assert_eq!(synic.message_page().gpn, None);
    assert_eq!(pages.requests, vec![]);
    synic.set_simp(0x7001, &mut pages).unwrap();
    assert_eq!(synic.message_page().gpn, Some(7));
    synic.set_simp(0x7003, &mut pages).unwrap();
    assert_eq!(synic.simp(), 0x7003);
    synic.set_simp(0x8001, &mut pages).unwrap();
    assert_eq!(synic.message_page().gpn, Some(8));
    synic.set_simp(0x8000, &mut pages).unwrap();
    assert_eq!(synic.message_page().gpn, None);
    assert_eq!(
        pages.requests,
        vec![
            OverlayRequest::Lock { gpn: 7, reply: Ok(()) },
            OverlayRequest::Lock { gpn: 8, reply: Ok(()) },
            OverlayRequest::Unlock { gpn: 7 },
            OverlayRequest::Unlock { gpn: 8 },
        ]
    );
}

#[test]
fn pages_keep_their_contents_when_they_move() {
    let mut synic = processor();
    let mut pages = pages();
    synic.set_simp(0x7001, &mut pages).unwrap();
    synic.write_message_page(4094, &[5, 6]);
    synic.set_simp(0x8001, &mut pages).unwrap();
    assert_eq!(synic.message_page().read(4093, 3), vec![0, 5, 6]);
    synic.reset();
    assert_eq!(synic.message_page().read(4093, 3), vec![0, 0, 0]);
    assert_eq!(synic.message_page().gpn, None);
}

#[test]
fn refused_pages_leave_the_registers_alone() {
    let mut synic = processor();
    let mut pages = UnprotectedPages::new(8);
    synic.set_simp(0x7001, &mut pages).unwrap();
    assert_eq!(synic.set_simp(0x8001, &mut pages), Err(MsrError::InvalidAccess));
    assert_eq!(synic.simp(), 0x7001);
    assert_eq!(synic.message_page().gpn, Some(7));
    assert_eq!(synic.set_siefp(0x8001, &mut pages), Err(MsrError::InvalidAccess));
    assert_eq!(synic.siefp(), 0);
    assert_eq!(
        synic.write_msr(HV_X64_MSR_SIEFP, 0x9001, &mut pages),
        Err(MsrError::InvalidAccess)
    );
    assert_eq!(
        pages.requests,
        vec![
            OverlayRequest::Lock { gpn: 7, reply: Ok(()) },
            OverlayRequest::Lock { gpn: 8, reply: Err(HvError::InvalidParameter) },
            OverlayRequest::Lock { gpn: 8, reply: Err(HvError::InvalidParameter) },
            OverlayRequest::Lock { gpn: 9, reply: Err(HvError::InvalidParameter) },
        ]
    );
}

struct Moody {
    locks: Vec<u64>,
}

impl VtlProtectAccess for Moody {
    fn lock_overlay_page(&mut self, gpn: u64) -> Result<(), HvError> {
        self.locks.push(gpn);
        if self.locks.len() % 2 == 0 {
            Err(HvError::ObjectInUse)
        } else {
            Ok(())
        }
    }

    fn unlock_overlay_page(&mut self, gpn: u64) {
        self.locks.retain(|&locked| locked != gpn);
    }
}

#[test]
fn page_keepers_of_any_kind_are_served() {
    let mut synic = processor();
    let mut moody = Moody { locks: vec![] };
    let access: &mut dyn VtlProtectAccess = &mut moody;
    assert_eq!(synic.set_siefp(0x5001, access), Ok(()));
    assert_eq!(synic.set_simp(0x6001, access), Err(MsrError::InvalidAccess));
    assert_eq!(synic.set_siefp(0, access), Ok(()));
    assert_eq!(moody.locks, vec![6]);
}

#[test]
fn proxied_sources_are_listed() {
    let mut synic = processor();
    assert_eq!(synic.proxied_sints(), 0);
    synic.set_sint(0, 0x100000);
    synic.set_sint(5, 0x110031);
    synic.set_sint(15, 0xffff_ffff_ffff_ffff);
    synic.set_sint(7, 0xf_ffff);
    assert_eq!(synic.proxied_sints(), 0b1000_0000_0010_0001);
}
