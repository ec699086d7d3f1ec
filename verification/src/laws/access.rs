//! Laws of the access to the registers: which number reaches which register, and
//! what reads and writes of it do.

use crate::access::OverlayRequest;
use crate::laws::scan::law_scan_and_the_registers;
use crate::laws::timers::due_time;
use crate::laws::timers::is_later;
use crate::laws::timers::law_scan_evaluates_each_timer;
use crate::laws::timers::law_timer_that_is_not_due;
use crate::lock::page_released;
use crate::lock::state_released;
use crate::lock::Released;
use crate::lock::SharedHandle;
use crate::model::msr_written;
use crate::model::nontimer_msr_written;
use crate::model::register_error;
use crate::model::register_msr;
use crate::model::register_written;
use crate::model::timers_evaluated;
use crate::model::ProcessorModel;
use crate::overlay::PageModel;
use crate::registers::HvError;
use crate::registers::HvRegisterName;
use crate::registers::HvRegisterValue;
use crate::registers::HvRegisterVsmVina;
use crate::registers::HvSynicScontrol;
use crate::registers::HvSynicSimpSiefp;
use crate::registers::HvSynicSint;
use crate::registers::HvSynicStimerConfig;
use crate::registers::MsrError;
use crate::registers::NUM_SINTS;
use crate::shared::EventPageModel;
use crate::shared::SharedModel;
use crate::shared::StateModel;
use crate::sint::page_after_write;
use crate::sint::page_register_after_write;
use crate::sint::page_write_requests;
use crate::sint::page_write_result;
use crate::sint::SintModel;
use crate::timer::Timer;
use vstd::prelude::*;

verus! {

/// A number of an MSR of the controller.
pub open spec fn is_synic_msr(msr: u32) -> bool {
    ||| 0x4000_0080 <= msr <= 0x4000_0084
    ||| 0x4000_0090 <= msr <= 0x4000_009f
    ||| 0x4000_00b0 <= msr <= 0x4000_00b7
}

/// What the MSRs read, in any state: each the register that its number stands
/// for, as it is held. The version reads one, and the end of message zero.
pub proof fn law_msr_reads(synic: ProcessorModel)
    ensures
        synic.msr(0x4000_0080) == Ok::<u64, MsrError>(synic.sints.scontrol.bits),
        synic.msr(0x4000_0081) == Ok::<u64, MsrError>(1),
        synic.msr(0x4000_0082) == Ok::<u64, MsrError>(synic.sints.siefp.bits),
        synic.msr(0x4000_0083) == Ok::<u64, MsrError>(synic.sints.simp.bits),
        synic.msr(0x4000_0084) == Ok::<u64, MsrError>(0),
        forall|n: int|
            0 <= n < 16 ==> #[trigger] synic.msr((0x4000_0090 + n) as u32) == Ok::<u64, MsrError>(
                synic.sints.sint[n].bits,
            ),
        synic.msr(0x4000_00b0) == Ok::<u64, MsrError>(synic.timers[0].config.bits),
        synic.msr(0x4000_00b1) == Ok::<u64, MsrError>(synic.timers[0].count),
        synic.msr(0x4000_00b2) == Ok::<u64, MsrError>(synic.timers[1].config.bits),
        synic.msr(0x4000_00b3) == Ok::<u64, MsrError>(synic.timers[1].count),
        synic.msr(0x4000_00b4) == Ok::<u64, MsrError>(synic.timers[2].config.bits),
        synic.msr(0x4000_00b5) == Ok::<u64, MsrError>(synic.timers[2].count),
        synic.msr(0x4000_00b6) == Ok::<u64, MsrError>(synic.timers[3].config.bits),
        synic.msr(0x4000_00b7) == Ok::<u64, MsrError>(synic.timers[3].count),
        forall|msr: u32|
            !is_synic_msr(msr) ==> #[trigger] synic.msr(msr) == Err::<u64, MsrError>(
                MsrError::Unknown,
            ),
{
}

/// The MSRs that are no timer's read the same through the access that leaves the
/// timers out; the others are unknown there.
pub proof fn law_nontimer_msr_reads(synic: ProcessorModel, msr: u32)
    ensures
        0x4000_00b0 <= msr <= 0x4000_00b7 ==> synic.nontimer_msr(msr) == Err::<u64, MsrError>(
            MsrError::Unknown,
        ),
        msr < 0x4000_00b0 || msr > 0x4000_00b7 ==> synic.nontimer_msr(msr) == synic.msr(msr),
{
}

/// The MSR that each register name stands for.
pub proof fn law_register_names()
    ensures
        forall|n: int|
            0 <= n < 16 ==> #[trigger] register_msr((0xa_0000 + n) as u32) == Some(
                (0x4000_0090 + n) as u32,
            ),
        register_msr(0xa_0010) == Some(0x4000_0080u32),
        register_msr(0xa_0011) == Some(0x4000_0081u32),
        register_msr(0xa_0012) == Some(0x4000_0082u32),
        register_msr(0xa_0013) == Some(0x4000_0083u32),
        register_msr(0xa_0014) == Some(0x4000_0084u32),
        forall|n: int|
            0 <= n < 8 ==> #[trigger] register_msr((0xb_0000 + n) as u32) == Some(
                (0x4000_00b0 + n) as u32,
            ),
        forall|reg: u32|
            (reg < 0xa_0000 || 0xa_0014 < reg < 0xb_0000 || reg > 0xb_0007) ==> #[trigger]
                register_msr(reg) is None,
{
}

/// A read of a register returns what its MSR reads, in the low half of the value.
/// The notification register has no MSR, and reads as it is held. All other names
/// are unknown.
pub proof fn law_register_reads(synic: ProcessorModel, reg: HvRegisterName)
    ensures
        reg.number == 0xd_0005 ==> synic.register(reg) == Ok::<HvRegisterValue, HvError>(
            HvRegisterValue { bits: synic.vina.bits as u128 },
        ),
        register_msr(reg.number) matches Some(msr) ==> synic.register(reg) == Ok::<
            HvRegisterValue,
            HvError,
        >(HvRegisterValue { bits: synic.msr(msr)->Ok_0 as u128 }),
        reg.number != 0xd_0005 && register_msr(reg.number) is None ==> synic.register(reg) == Err::<
            HvRegisterValue,
            HvError,
        >(HvError::UnknownRegisterName),
{
}

/// How the failure of an MSR access is told of a register access.
pub proof fn law_register_errors()
    ensures
        register_error(MsrError::Unknown) == HvError::UnknownRegisterName,
        register_error(MsrError::InvalidAccess) == HvError::InvalidParameter,
{
}

/// What writes of the MSRs that are no timer's leave: each the register that its
/// number stands for, with the value written, and nothing else. Those of the
/// pages go by the reply to a request to move the page. The version, the end of
/// message and unknown MSRs leave everything as it was.
pub proof fn law_msr_writes(synic: ProcessorModel, v: u64, reply: Result<(), HvError>)
    ensures
        synic.with_msr(0x4000_0080, v, reply) == (ProcessorModel {
            sints: SintModel { scontrol: HvSynicScontrol { bits: v }, ..synic.sints },
            ..synic
        }),
        synic.with_msr(0x4000_0081, v, reply) == synic,
        synic.with_msr(0x4000_0082, v, reply) == (ProcessorModel {
            sints: SintModel {
                siefp: page_register_after_write(
                    synic.sints.siefp,
                    HvSynicSimpSiefp { bits: v },
                    reply,
                ),
                ..synic.sints
            },
            ..synic
        }),
        synic.with_msr(0x4000_0083, v, reply) == (ProcessorModel {
            sints: SintModel {
                simp: page_register_after_write(
                    synic.sints.simp,
                    HvSynicSimpSiefp { bits: v },
                    reply,
                ),
                simp_page: page_after_write(
                    synic.sints.simp_page,
                    synic.sints.simp,
                    HvSynicSimpSiefp { bits: v },
                    reply,
                ),
                ..synic.sints
            },
            ..synic
        }),
        synic.with_msr(0x4000_0084, v, reply) == synic,
        forall|n: int|
            0 <= n < 16 ==> #[trigger] synic.with_msr((0x4000_0090 + n) as u32, v, reply) == (
            ProcessorModel {
                sints: SintModel {
                    sint: synic.sints.sint.update(n, HvSynicSint { bits: v }),
                    ..synic.sints
                },
                ..synic
            }),
        forall|msr: u32| !is_synic_msr(msr) ==> #[trigger] synic.with_msr(msr, v, reply) == synic,
{
}

/// What writes of the timers' MSRs leave: the one timer, with the value in the
/// one register, and its registers marked as written. The write of a nonzero
/// count sets the enable bit if bit 3 of the configuration says so.
pub proof fn law_timer_msr_writes(
    synic: ProcessorModel,
    n: int,
    v: u64,
    reply: Result<(), HvError>,
)
    requires
        0 <= n < 4,
        synic.timers.len() == 4,
    ensures
        ({
            let timer = synic.timers[n];
            let config = timer.config.bits;
            &&& synic.with_msr((0x4000_00b0 + 2 * n) as u32, v, reply) == (ProcessorModel {
                timers: synic.timers.update(
                    n,
                    Timer {
                        config: HvSynicStimerConfig { bits: v },
                        count: timer.count,
                        reevaluate: true,
                        due_time: timer.due_time,
                    },
                ),
                ..synic
            })
            &&& synic.with_msr((0x4000_00b1 + 2 * n) as u32, v, reply) == (ProcessorModel {
                timers: synic.timers.update(
                    n,
                    Timer {
                        config: HvSynicStimerConfig {
                            bits: if config & 8 != 0 && v != 0 {
                                config | 1
                            } else {
                                config
                            },
                        },
                        count: v,
                        reevaluate: true,
                        due_time: timer.due_time,
                    },
                ),
                ..synic
            })
        }),
{
    assert((0x4000_00b0 + 2 * n) as u32 == 0x4000_00b0 + 2 * n);
    assert((0x4000_00b1 + 2 * n) as u32 == 0x4000_00b1 + 2 * n);
}

/// What writes of MSRs are answered: the version cannot be written, those of the
/// pages go by the reply to a request to move the page, other numbers are
/// unknown, and all the rest succeeds.
pub proof fn law_msr_write_answers(
    synic: ProcessorModel,
    msr: u32,
    v: u64,
    reply: Result<(), HvError>,
)
    ensures
        msr == 0x4000_0081 ==> synic.msr_write_result(msr, v, reply) == Err::<(), MsrError>(
            MsrError::InvalidAccess,
        ),
        msr == 0x4000_0082 ==> synic.msr_write_result(msr, v, reply) == page_write_result(
            synic.sints.siefp,
            (HvSynicSimpSiefp { bits: v }),
            reply,
        ),
        msr == 0x4000_0083 ==> synic.msr_write_result(msr, v, reply) == page_write_result(
            synic.sints.simp,
            (HvSynicSimpSiefp { bits: v }),
            reply,
        ),
        !is_synic_msr(msr) ==> synic.msr_write_result(msr, v, reply) == Err::<(), MsrError>(
            MsrError::Unknown,
        ),
        is_synic_msr(msr) && msr != 0x4000_0081 && msr != 0x4000_0082 && msr != 0x4000_0083
            ==> synic.msr_write_result(msr, v, reply) is Ok,
{
}

/// The requests about guest pages that writes of MSRs make: only those of the two
/// page registers make any, each about its own page.
pub proof fn law_msr_write_requests(
    synic: ProcessorModel,
    shared: SharedModel,
    msr: u32,
    v: u64,
    reply: Result<(), HvError>,
)
    ensures
        msr == 0x4000_0082 ==> synic.msr_write_requests(shared, msr, v, reply)
            == page_write_requests(
            shared.siefp_page,
            synic.sints.siefp,
            (HvSynicSimpSiefp { bits: v }),
            reply,
        ),
        msr == 0x4000_0083 ==> synic.msr_write_requests(shared, msr, v, reply)
            == page_write_requests(
            synic.sints.simp_page,
            synic.sints.simp,
            (HvSynicSimpSiefp { bits: v }),
            reply,
        ),
        msr != 0x4000_0082 && msr != 0x4000_0083 ==> synic.msr_write_requests(
            shared,
            msr,
            v,
            reply,
        ).len() == 0,
{
}

/// What writes of MSRs leave for others: the enable bit of the control register,
/// the sources, and the place of the event flags page, each as written, and
/// nothing else.
pub proof fn law_msr_writes_and_others(
    shared: SharedModel,
    siefp: HvSynicSimpSiefp,
    v: u64,
    reply: Result<(), HvError>,
)
    ensures
        shared.with_msr(siefp, 0x4000_0080, v, reply) == (SharedModel {
            state: StateModel { enabled: v & 1 != 0, ..shared.state },
            ..shared
        }),
        shared.with_msr(siefp, 0x4000_0082, v, reply) == (SharedModel {
            siefp_page: page_after_write(
                shared.siefp_page,
                siefp,
                HvSynicSimpSiefp { bits: v },
                reply,
            ),
            ..shared
        }),
        forall|n: int|
            0 <= n < 16 ==> #[trigger] shared.with_msr(siefp, (0x4000_0090 + n) as u32, v, reply)
                == (SharedModel {
                state: StateModel {
                    sint: shared.state.sint.update(n, HvSynicSint { bits: v }),
                    ..shared.state
                },
                ..shared
            }),
        forall|msr: u32|
            msr != 0x4000_0080 && msr != 0x4000_0082 && !(0x4000_0090 <= msr <= 0x4000_009f)
                ==> #[trigger] shared.with_msr(siefp, msr, v, reply) == shared,
{
}

/// A write of a register is a write of its MSR with the low half of the value.
/// The notification register takes a value only if none of the bits from 11 on
/// is set. Writes of other names fail and change nothing.
pub proof fn law_register_writes(
    synic: ProcessorModel,
    reg: HvRegisterName,
    v: HvRegisterValue,
    reply: Result<(), HvError>,
)
    ensures
        register_msr(reg.number) matches Some(msr) ==> {
            let written = synic.msr_write_result(msr, v.as_u64(), reply);
            &&& synic.with_register(reg, v, reply) == synic.with_msr(msr, v.as_u64(), reply)
            &&& written is Ok ==> synic.register_write_result(reg, v, reply) is Ok
            &&& written is Err ==> synic.register_write_result(reg, v, reply) == Err::<(), HvError>(
                HvError::InvalidParameter,
            )
        },
        reg.number == 0xd_0005 && v.as_u64() >> 11 == 0 ==> {
            &&& synic.register_write_result(reg, v, reply) is Ok
            &&& synic.with_register(reg, v, reply) == (ProcessorModel {
                vina: HvRegisterVsmVina { bits: v.as_u64() },
                ..synic
            })
        },
        reg.number == 0xd_0005 && v.as_u64() >> 11 != 0 ==> {
            &&& synic.register_write_result(reg, v, reply) == Err::<(), HvError>(
                HvError::InvalidParameter,
            )
            &&& synic.with_register(reg, v, reply) == synic
        },
        reg.number != 0xd_0005 && register_msr(reg.number) is None ==> {
            &&& synic.register_write_result(reg, v, reply) == Err::<(), HvError>(
                HvError::UnknownRegisterName,
            )
            &&& synic.with_register(reg, v, reply) == synic
        },
{
}

/// What the locks tell of a write of an MSR: those of the control register, of
/// the sources and of the event flags page register take the lock of the state
/// once, and leave there what is to be seen by others. Only the last of them takes
/// the lock of the page, once.
pub proof fn law_written_msr_is_seen_by_others(
    before: ProcessorModel,
    after: ProcessorModel,
    handle: SharedHandle,
    handle_after: SharedHandle,
    shared: SharedModel,
    reply: Result<(), HvError>,
    msr: u32,
    v: u64,
    result: Result<(), MsrError>,
    requests: Seq<OverlayRequest>,
)
    requires
        msr_written(
            before,
            after,
            handle,
            handle_after,
            shared,
            reply,
            msr,
            v,
            result,
            requests,
        ),
    ensures
        result == before.msr_write_result(msr, v, reply),
        after == before.with_msr(msr, v, reply),
        requests == before.msr_write_requests(shared, msr, v, reply),
        handle_after.locks() == handle.locks(),
        msr == 0x4000_0080 || msr == 0x4000_0082 || 0x4000_0090 <= msr <= 0x4000_009f ==> {
            &&& handle_after.turns() == handle.turns() + 1
            &&& exists|receipt: Released|
                {
                    &&& (#[trigger] state_released(receipt)).lock == handle.locks().state
                    &&& state_released(receipt).found == shared.state
                    &&& state_released(receipt).now == shared.with_msr(
                        before.sints.siefp,
                        msr,
                        v,
                        reply,
                    ).state
                }
        },
        msr != 0x4000_0080 && msr != 0x4000_0082 && !(0x4000_0090 <= msr <= 0x4000_009f)
            ==> handle_after.turns() == handle.turns(),
        msr == 0x4000_0082 ==> {
            &&& handle_after.page_turns() == handle.page_turns() + 1
            &&& exists|receipt: Released|
                {
                    &&& (#[trigger] page_released(receipt)).lock == handle.locks().event_page
                    &&& page_released(receipt).found.page == shared.siefp_page
                    &&& page_released(receipt).now.index == page_released(receipt).found.index
                    &&& page_released(receipt).now.page == page_after_write(
                        shared.siefp_page,
                        before.sints.siefp,
                        HvSynicSimpSiefp { bits: v },
                        reply,
                    )
                }
        },
        msr != 0x4000_0082 ==> handle_after.page_turns() == handle.page_turns(),
{
    if msr == 0x4000_0082 {
        let left = shared.with_msr(before.sints.siefp, msr, v, reply).siefp_page;
        let receipt = choose|receipt: Released|
            {
                &&& (#[trigger] page_released(receipt)).lock == handle.locks().event_page
                &&& page_released(receipt).found.page == shared.siefp_page
                &&& page_released(receipt).now == (EventPageModel {
                    page: left,
                    ..page_released(receipt).found
                })
            };
        assert(page_released(receipt).now.page == left);
    }
}

/// A write of an MSR that is no timer's does what any write of that MSR does;
/// those of the timers are unknown here, and leave everything as it was.
pub proof fn law_written_nontimer_msr(
    before: ProcessorModel,
    after: ProcessorModel,
    handle: SharedHandle,
    handle_after: SharedHandle,
    shared: SharedModel,
    reply: Result<(), HvError>,
    msr: u32,
    v: u64,
    result: Result<(), MsrError>,
    requests: Seq<OverlayRequest>,
)
    requires
        nontimer_msr_written(
            before,
            after,
            handle,
            handle_after,
            shared,
            reply,
            msr,
            v,
            result,
            requests,
        ),
    ensures
        msr < 0x4000_00b0 || msr > 0x4000_00b7 ==> msr_written(
            before,
            after,
            handle,
            handle_after,
            shared,
            reply,
            msr,
            v,
            result,
            requests,
        ),
        0x4000_00b0 <= msr <= 0x4000_00b7 ==> {
            &&& result == Err::<(), MsrError>(MsrError::Unknown)
            &&& after == before
            &&& requests.len() == 0
            &&& handle_after.locks() == handle.locks()
            &&& handle_after.turns() == handle.turns()
            &&& handle_after.page_turns() == handle.page_turns()
        },
{
}

/// A write of a register does what the write of its MSR does; one without an MSR
/// is no one else's business.
pub proof fn law_written_register(
    before: ProcessorModel,
    after: ProcessorModel,
    handle: SharedHandle,
    handle_after: SharedHandle,
    shared: SharedModel,
    reply: Result<(), HvError>,
    reg: HvRegisterName,
    v: HvRegisterValue,
    result: Result<(), HvError>,
    requests: Seq<OverlayRequest>,
)
    requires
        register_written(
            before,
            after,
            handle,
            handle_after,
            shared,
            reply,
            reg,
            v,
            result,
            requests,
        ),
    ensures
        result == before.register_write_result(reg, v, reply),
        after == before.with_register(reg, v, reply),
        register_msr(reg.number) matches Some(msr) ==> msr_written(
            before,
            after,
            handle,
            handle_after,
            shared,
            reply,
            msr,
            v.as_u64(),
            before.msr_write_result(msr, v.as_u64(), reply),
            requests,
        ),
        register_msr(reg.number) is None ==> handle_after == handle && requests.len() == 0,
{
}

/// What a controller holds after a reset: it is on, its sources are masked, its
/// pages are zeroed and out of the guest's sight, and nothing is asked for, ready
/// or running.
pub proof fn law_reset_state(n: int)
    ensures
        ({
            let synic = ProcessorModel::fresh();
            &&& synic.sints.scontrol.bits == 1
            &&& synic.sints.siefp.bits == 0
            &&& synic.sints.simp.bits == 0
            &&& synic.sints.simp_page == PageModel::fresh()
            &&& synic.sints.sint.len() == 16
            &&& 0 <= n < 16 ==> synic.sints.sint[n].bits == 0x1_0000
            &&& synic.sints.pending_sints == 0
            &&& synic.sints.ready_sints == 0
            &&& synic.timers.len() == 4
            &&& 0 <= n < 4 ==> synic.timers[n].config.bits == 0
            &&& 0 <= n < 4 ==> synic.timers[n].count == 0
            &&& 0 <= n < 4 ==> !synic.timers[n].reevaluate
            &&& 0 <= n < 4 ==> synic.timers[n].due_time is None
            &&& synic.vina.bits == 0
        }),
{
}

/// A scan changes what no MSR reads, but that the lowest bit of a timer's
/// configuration can be cleared.
pub proof fn law_scan_and_msr_reads(synic: ProcessorModel, now: u64, msr: u32)
    requires
        synic.sints.simp_page.contents.len() == 4096,
        synic.sints.sint.len() == 16,
        synic.timers.len() == 4,
    ensures
        ({
            let before = synic.msr(msr);
            let after = synic.scanned(now).msr(msr);
            &&& after is Ok <==> before is Ok
            &&& after == before || 0x4000_00b0 <= msr <= 0x4000_00b6 && msr % 2 == 0 && after->Ok_0
                == before->Ok_0 & !1u64
        }),
{
    law_scan_and_the_registers(synic, now, 0);
    law_scan_and_the_registers(synic, now, 1);
    law_scan_and_the_registers(synic, now, 2);
    law_scan_and_the_registers(synic, now, 3);
}

/// A scan that finds no timer due changes what no MSR reads, whether the timers
/// run or not.
pub proof fn law_msr_reads_while_timers_run(synic: ProcessorModel, now: u64, msr: u32)
    requires
        synic.sints.simp_page.contents.len() == 4096,
        synic.sints.sint.len() == 16,
        synic.timers.len() == 4,
        forall|n: int|
            0 <= n < 4 ==> ((#[trigger] due_time(synic.timers[n], now)) matches Some(due)
                ==> is_later(due, now)),
    ensures
        synic.scanned(now).msr(msr) == synic.msr(msr),
{
    law_scan_and_the_registers(synic, now, 0);
    assert forall|n: int| 0 <= n < 4 implies (#[trigger] synic.scanned(now).timers[n]).config
        == synic.timers[n].config && synic.scanned(now).timers[n].count
        == synic.timers[n].count by {
        assert(due_time(synic.timers[n], now) matches Some(due) ==> is_later(due, now));
        law_scan_evaluates_each_timer(synic, now, n);
        law_timer_that_is_not_due(
            synic.timers[n],
            n as u32,
            timers_evaluated(
                synic.timers,
                synic.sints.pending_checked(NUM_SINTS as nat),
                now,
                n as nat,
            ).sints,
            now,
        );
    }
    assert(synic.scanned(now).timers[0].config == synic.timers[0].config);
    assert(synic.scanned(now).timers[1].config == synic.timers[1].config);
    assert(synic.scanned(now).timers[2].config == synic.timers[2].config);
    assert(synic.scanned(now).timers[3].config == synic.timers[3].config);
}

/// What an MSR reads goes by the registers alone: neither the message page, nor
/// what is asked for or ready, nor whether and until when the timers run plays a
/// part.
pub proof fn law_msr_reads_go_by_the_registers(
    synic: ProcessorModel,
    other: ProcessorModel,
    msr: u32,
)
    requires
        synic.sints.scontrol == other.sints.scontrol,
        synic.sints.siefp == other.sints.siefp,
        synic.sints.simp == other.sints.simp,
        synic.sints.sint == other.sints.sint,
        synic.timers.len() == 4,
        other.timers.len() == 4,
        forall|n: int|
            0 <= n < 4 ==> (#[trigger] synic.timers[n]).config == other.timers[n].config
                && synic.timers[n].count == other.timers[n].count,
    ensures
        synic.msr(msr) == other.msr(msr),
{
    assert(synic.timers[0].config == other.timers[0].config);
    assert(synic.timers[1].config == other.timers[1].config);
    assert(synic.timers[2].config == other.timers[2].config);
    assert(synic.timers[3].config == other.timers[3].config);
}

/// What the setters of single registers leave: the one register as it was set,
/// and nothing else changed.
pub proof fn law_setters(
    synic: ProcessorModel,
    sints: SintModel,
    state: StateModel,
    timer: Timer,
    n: int,
    v: u64,
    reply: Result<(), HvError>,
)
    ensures
        synic.with_sints(sints) == (ProcessorModel { sints, ..synic }),
        synic.with_timer(n, timer) == (ProcessorModel {
            timers: synic.timers.update(n, timer),
            ..synic
        }),
        sints.with_scontrol(v) == (SintModel { scontrol: HvSynicScontrol { bits: v }, ..sints }),
        sints.with_sint(n, v) == (SintModel {
            sint: sints.sint.update(n, HvSynicSint { bits: v }),
            ..sints
        }),
        sints.with_siefp(v, reply) == (SintModel {
            siefp: page_register_after_write(sints.siefp, HvSynicSimpSiefp { bits: v }, reply),
            ..sints
        }),
        sints.with_simp(v, reply) == (SintModel {
            simp: page_register_after_write(sints.simp, HvSynicSimpSiefp { bits: v }, reply),
            simp_page: page_after_write(
                sints.simp_page,
                sints.simp,
                HvSynicSimpSiefp { bits: v },
                reply,
            ),
            ..sints
        }),
        state.with_scontrol(v) == (StateModel { enabled: v & 1 != 0, ..state }),
        state.with_sint(n, v) == (StateModel {
            sint: state.sint.update(n, HvSynicSint { bits: v }),
            ..state
        }),
        timer.with_config(v) == (Timer {
            config: HvSynicStimerConfig { bits: v },
            count: timer.count,
            reevaluate: true,
            due_time: timer.due_time,
        }),
        timer.with_count(v) == (Timer {
            config: HvSynicStimerConfig {
                bits: if timer.config.bits & 8 != 0 && v != 0 {
                    timer.config.bits | 1
                } else {
                    timer.config.bits
                },
            },
            count: v,
            reevaluate: true,
            due_time: timer.due_time,
        }),
{
}

/// There are five MSRs of the controller as a whole, one for each of the sixteen
/// sources, and two for each of the four timers. No other number is known, to
/// reads or to writes.
pub proof fn law_known_msrs(
    synic: ProcessorModel,
    msr: u32,
    v: u64,
    reply: Result<(), HvError>,
)
    requires
        !(0x4000_0080 <= msr < 0x4000_0080 + 5),
        !(0x4000_0090 <= msr < 0x4000_0090 + 16),
        !(0x4000_00b0 <= msr < 0x4000_00b0 + 8),
    ensures
        synic.msr(msr) == Err::<u64, MsrError>(MsrError::Unknown),
        synic.msr_write_result(msr, v, reply) == Err::<(), MsrError>(MsrError::Unknown),
        synic.with_msr(msr, v, reply) == synic,
{
}

/// The other way round: each of those numbers is known to reads, and all but the
/// version to writes.
pub proof fn law_known_msrs_can_be_read(
    synic: ProcessorModel,
    msr: u32,
    v: u64,
    reply: Result<(), HvError>,
)
    requires
        0x4000_0080 <= msr < 0x4000_0080 + 5 || 0x4000_0090 <= msr < 0x4000_0090 + 16
            || 0x4000_00b0 <= msr < 0x4000_00b0 + 8,
    ensures
        synic.msr(msr) is Ok,
        synic.msr_write_result(msr, v, reply) != Err::<(), MsrError>(MsrError::Unknown),
        reply is Ok ==> (synic.msr_write_result(msr, v, reply) is Err <==> msr == 0x4000_0081),
{
}

} // verus!
