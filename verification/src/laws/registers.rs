//! Laws of the registers, and of the state that mirrors them for others.

use crate::access::OverlayRequest;
use crate::lock::state_moved;
use crate::lock::SharedHandle;
use crate::model::is_count_msr;
use crate::model::is_shared_msr;
use crate::model::is_sint_msr;
use crate::model::is_timer_msr;
use crate::model::msr_moved_shared;
use crate::model::msr_timer;
use crate::model::msr_written;
use crate::model::register_msr;
use crate::model::register_written;
use crate::model::ProcessorModel;
use crate::overlay::PageModel;
use crate::registers::HvError;
use crate::registers::HvRegisterName;
use crate::registers::HvRegisterValue;
use crate::registers::HvSynicScontrol;
use crate::registers::HvSynicSimpSiefp;
use crate::registers::HvSynicSint;
use crate::registers::MsrError;
use crate::registers::HV_REGISTER_EOM;
use crate::registers::HV_REGISTER_SCONTROL;
use crate::registers::HV_REGISTER_SIFP;
use crate::registers::HV_REGISTER_SINT0;
use crate::registers::HV_REGISTER_SIPP;
use crate::registers::HV_REGISTER_STIMER0_CONFIG;
use crate::registers::HV_REGISTER_SVERSION;
use crate::registers::HV_REGISTER_VSM_VINA;
use crate::registers::HV_X64_MSR_EOM;
use crate::registers::HV_X64_MSR_SCONTROL;
use crate::registers::HV_X64_MSR_SIEFP;
use crate::registers::HV_X64_MSR_SIMP;
use crate::registers::HV_X64_MSR_SINT0;
use crate::registers::HV_X64_MSR_STIMER0_CONFIG;
use crate::registers::HV_X64_MSR_SVERSION;
use crate::shared::SharedModel;
use crate::shared::StateModel;
use crate::shared::MASKED_SINT_BITS;
use crate::sint::page_after_write;
use crate::sint::page_write_requests;
use crate::sint::page_write_result;
use vstd::prelude::*;

verus! {

/// What was written to an MSR is read back from it. Only the end-of-message
/// MSR takes writes and always reads zero.
pub proof fn law_msr_reads_back(
    synic: ProcessorModel,
    msr: u32,
    v: u64,
    reply: Result<(), HvError>,
)
    requires
        synic.wf(),
        synic.msr_write_result(msr, v, reply) is Ok,
        msr != HV_X64_MSR_EOM,
    ensures
        synic.with_msr(msr, v, reply).msr(msr) == Ok::<u64, MsrError>(v),
{
}

/// A write of an MSR changes what no other MSR reads, but that the write of a
/// timer's count can enable the timer in its configuration.
pub proof fn law_msr_write_is_local(
    synic: ProcessorModel,
    msr: u32,
    other: u32,
    v: u64,
    reply: Result<(), HvError>,
)
    requires
        synic.wf(),
        other != msr,
        !(is_timer_msr(msr) && is_count_msr(msr) && other == msr - 1),
    ensures
        synic.with_msr(msr, v, reply).msr(other) == synic.msr(other),
{
}

/// The write of a timer's count enables the timer if it is to be enabled so
/// and the count is not zero, and else leaves its configuration alone.
pub proof fn law_count_write_enables(
    synic: ProcessorModel,
    msr: u32,
    v: u64,
    reply: Result<(), HvError>,
)
    requires
        synic.wf(),
        is_timer_msr(msr),
        is_count_msr(msr),
    ensures
        ({
            let config = synic.timers[msr_timer(msr)].config;
            synic.with_msr(msr, v, reply).msr((msr - 1) as u32) == Ok::<
                u64,
                MsrError,
            >(
                if config.auto_enable() && v != 0 {
                    config.with_enabled(true).bits
                } else {
                    config.bits
                },
            )
        }),
{
}

/// A write of an MSR that fails changes nothing, neither here nor in the state
/// that is shared.
pub proof fn law_failed_msr_write_changes_nothing(
    synic: ProcessorModel,
    shared: SharedModel,
    msr: u32,
    v: u64,
    reply: Result<(), HvError>,
)
    requires
        synic.msr_write_result(msr, v, reply) is Err,
    ensures
        synic.with_msr(msr, v, reply) == synic,
        shared.with_msr(synic.sints.siefp, msr, v, reply) == shared,
{
}

/// A write of a register that fails changes nothing.
pub proof fn law_failed_register_write_changes_nothing(
    synic: ProcessorModel,
    reg: HvRegisterName,
    v: HvRegisterValue,
    reply: Result<(), HvError>,
)
    requires
        synic.register_write_result(reg, v, reply) is Err,
    ensures
        synic.with_register(reg, v, reply) == synic,
{
}

/// What was written to a register is read back from it, the end-of-message
/// register aside.
pub proof fn law_register_reads_back(
    synic: ProcessorModel,
    reg: HvRegisterName,
    v: HvRegisterValue,
    reply: Result<(), HvError>,
)
    requires
        synic.wf(),
        synic.register_write_result(reg, v, reply) is Ok,
        reg.number != HV_REGISTER_EOM,
    ensures
        synic.with_register(reg, v, reply).register(reg) == Ok::<HvRegisterValue, HvError>(
            HvRegisterValue { bits: v.as_u64() as u128 },
        ),
{
}

/// A register can be read exactly if its name is known.
pub proof fn law_known_registers_are_read(synic: ProcessorModel, reg: HvRegisterName)
    ensures
        synic.register(reg) is Ok <==> reg.number == HV_REGISTER_VSM_VINA || register_msr(
            reg.number,
        ) is Some,
        synic.register(reg) is Err ==> synic.register(reg) == Err::<HvRegisterValue, HvError>(
            HvError::UnknownRegisterName,
        ),
{
}

/// Each MSR of the controller has one register name, and each register name
/// but that of the interrupt notification stands for one MSR.
pub proof fn law_register_names_are_unique(synic: ProcessorModel, a: u32, b: u32)
    requires
        register_msr(a) is Some,
        register_msr(a) == register_msr(b),
    ensures
        a == b,
        synic.msr(register_msr(a)->0) is Ok,
{
}

/// The register name of an MSR of the controller.
pub open spec fn msr_register(msr: u32) -> u32 {
    if is_sint_msr(msr) {
        (HV_REGISTER_SINT0 + (msr - HV_X64_MSR_SINT0)) as u32
    } else if is_timer_msr(msr) {
        (HV_REGISTER_STIMER0_CONFIG + (msr - HV_X64_MSR_STIMER0_CONFIG)) as u32
    } else if msr == HV_X64_MSR_SCONTROL {
        HV_REGISTER_SCONTROL
    } else if msr == HV_X64_MSR_SVERSION {
        HV_REGISTER_SVERSION
    } else if msr == HV_X64_MSR_SIEFP {
        HV_REGISTER_SIFP
    } else if msr == HV_X64_MSR_SIMP {
        HV_REGISTER_SIPP
    } else {
        HV_REGISTER_EOM
    }
}

/// Every MSR that can be read can be reached through a register name.
pub proof fn law_msrs_have_register_names(synic: ProcessorModel, msr: u32)
    requires
        synic.msr(msr) is Ok,
    ensures
        register_msr(msr_register(msr)) == Some(msr),
{
}

/// What the MSRs read after a reset: the controller is on, the sources are
/// masked, and nothing else is set up.
pub proof fn law_reset_values(msr: u32)
    requires
        ProcessorModel::fresh().msr(msr) is Ok,
    ensures
        ProcessorModel::fresh().msr(msr) == Ok::<u64, MsrError>(
            if msr == HV_X64_MSR_SCONTROL || msr == HV_X64_MSR_SVERSION {
                1
            } else if is_sint_msr(msr) {
                MASKED_SINT_BITS
            } else {
                0
            },
        ),
{
}

/// The guest page that a page register asks for.
pub open spec fn asked_gpn(register: HvSynicSimpSiefp) -> Option<u64> {
    if register.enabled() {
        Some(register.base_gpn())
    } else {
        None
    }
}

/// The shared state shows others what the registers say, and both pages lie
/// where the registers say.
pub open spec fn in_step(synic: ProcessorModel, shared: SharedModel) -> bool {
    &&& shared.state.online
    &&& shared.state.enabled == synic.sints.scontrol.enabled()
    &&& shared.state.sint == synic.sints.sint
    &&& shared.siefp_page.gpn == asked_gpn(synic.sints.siefp)
    &&& synic.sints.simp_page.gpn == asked_gpn(synic.sints.simp)
}

/// The shared state is in step with the registers after a reset, and when the
/// processor was added.
pub proof fn law_in_step_at_reset(shared: SharedModel)
    ensures
        in_step(ProcessorModel::fresh(), SharedModel::at_reset(shared.state.index)),
        !shared.state.online ==> in_step(ProcessorModel::fresh(), shared.after_add()),
{
    assert(1u64 & 1 != 0) by (bit_vector);
    assert(0u64 & 1 == 0) by (bit_vector);
}

/// Writes of MSRs keep the shared state in step with the registers.
pub proof fn law_msr_writes_keep_step(
    synic: ProcessorModel,
    shared: SharedModel,
    msr: u32,
    v: u64,
    reply: Result<(), HvError>,
)
    requires
        in_step(synic, shared),
    ensures
        in_step(
            synic.with_msr(msr, v, reply),
            shared.with_msr(synic.sints.siefp, msr, v, reply),
        ),
{
}

/// Writes of registers keep the shared state in step with them.
pub proof fn law_register_writes_keep_step(
    synic: ProcessorModel,
    shared: SharedModel,
    reg: HvRegisterName,
    v: HvRegisterValue,
    reply: Result<(), HvError>,
)
    requires
        in_step(synic, shared),
    ensures
        ({
            let after = match register_msr(reg.number) {
                Some(msr) => shared.with_msr(synic.sints.siefp, msr, v.as_u64(), reply),
                None => shared,
            };
            in_step(synic.with_register(reg, v, reply), after)
        }),
{
}

/// Events, and the guest's writes to the event flags page, keep the shared
/// state in step with the registers.
pub proof fn law_events_keep_step(
    synic: ProcessorModel,
    shared: SharedModel,
    sint_index: u8,
    flag: u16,
    offset: int,
    data: Seq<u8>,
)
    requires
        in_step(synic, shared),
    ensures
        in_step(synic, shared.after_event(sint_index, flag)),
        in_step(synic, shared.with_event_page_write(offset, data)),
{
}

/// Messages, whether posted or refused, keep the shared state in step with the
/// registers.
pub proof fn law_messages_keep_step(
    synic: ProcessorModel,
    shared: SharedModel,
    sint_index: u8,
    message: Seq<u8>,
)
    requires
        in_step(synic, shared),
    ensures
        in_step(synic.with_sints(synic.sints.checked(sint_index)), shared),
        in_step(synic.with_sints(synic.sints.after_post(sint_index, message)), shared),
{
}

/// A write of an MSR that finds what is shared in step with the registers leaves
/// it so behind the locks. Only that of the event flags page register takes the
/// page.
pub proof fn law_msr_writes_leave_step(
    before: ProcessorModel,
    after: ProcessorModel,
    handle: SharedHandle,
    handle_after: SharedHandle,
    shared: SharedModel,
    reply: Result<(), HvError>,
    msr: u32,
    v: u64,
    result: Result<(), MsrError>,
    requests: Seq<OverlayRequest>,
)
    requires
        in_step(before, shared),
        msr_written(
            before,
            after,
            handle,
            handle_after,
            shared,
            reply,
            msr,
            v,
            result,
            requests,
        ),
    ensures
        exists|left: SharedModel|
            {
                &&& #[trigger] msr_moved_shared(handle, handle_after, msr, shared, left)
                &&& in_step(after, left)
                &&& !is_shared_msr(msr) ==> left == shared
                &&& msr != HV_X64_MSR_SIEFP ==> left.siefp_page == shared.siefp_page
            },
{
    law_msr_writes_keep_step(before, shared, msr, v, reply);
    let left = shared.with_msr(before.sints.siefp, msr, v, reply);
    assert(msr_moved_shared(handle, handle_after, msr, shared, left));
}

/// A write of a register that finds what is shared in step with the registers
/// leaves it so behind the locks. Only that of the event flags page register
/// takes the page.
pub proof fn law_register_writes_leave_step(
    before: ProcessorModel,
    after: ProcessorModel,
    handle: SharedHandle,
    handle_after: SharedHandle,
    shared: SharedModel,
    reply: Result<(), HvError>,
    reg: HvRegisterName,
    v: HvRegisterValue,
    result: Result<(), HvError>,
    requests: Seq<OverlayRequest>,
)
    requires
        in_step(before, shared),
        register_written(
            before,
            after,
            handle,
            handle_after,
            shared,
            reply,
            reg,
            v,
            result,
            requests,
        ),
    ensures
        match register_msr(reg.number) {
            Some(msr) => exists|left: SharedModel|
                {
                    &&& #[trigger] msr_moved_shared(handle, handle_after, msr, shared, left)
                    &&& in_step(after, left)
                    &&& !is_shared_msr(msr) ==> left == shared
                    &&& msr != HV_X64_MSR_SIEFP ==> left.siefp_page == shared.siefp_page
                },
            None => handle_after == handle && in_step(after, shared),
        },
{
    law_register_writes_keep_step(before, shared, reg, v, reply);
    if let Some(msr) = register_msr(reg.number) {
        let left = shared.with_msr(before.sints.siefp, msr, v.as_u64(), reply);
        assert(msr_moved_shared(handle, handle_after, msr, shared, left));
    }
}

/// A write of the control register, or of a source, leaves others the bits that
/// were written and nothing else, and does not take the event flags page.
pub proof fn law_writes_are_mirrored(
    before: ProcessorModel,
    after: ProcessorModel,
    handle: SharedHandle,
    handle_after: SharedHandle,
    shared: SharedModel,
    reply: Result<(), HvError>,
    msr: u32,
    v: u64,
    result: Result<(), MsrError>,
    requests: Seq<OverlayRequest>,
)
    requires
        before.wf(),
        msr == HV_X64_MSR_SCONTROL || is_sint_msr(msr),
        msr_written(
            before,
            after,
            handle,
            handle_after,
            shared,
            reply,
            msr,
            v,
            result,
            requests,
        ),
    ensures
        handle_after.locks() == handle.locks(),
        handle_after.turns() == handle.turns() + 1,
        handle_after.page_turns() == handle.page_turns(),
        msr == HV_X64_MSR_SCONTROL ==> {
            &&& after.sints.scontrol == HvSynicScontrol { bits: v }
            &&& state_moved(
                handle.locks().state,
                shared.state,
                (StateModel { enabled: after.sints.scontrol.enabled(), ..shared.state }),
            )
        },
        is_sint_msr(msr) ==> {
            let n = msr - HV_X64_MSR_SINT0;
            &&& after.sints.sint[n] == HvSynicSint { bits: v }
            &&& state_moved(
                handle.locks().state,
                shared.state,
                (StateModel {
                    sint: shared.state.sint.update(n, after.sints.sint[n]),
                    ..shared.state
                }),
            )
        },
{
}

/// A write that asks for a page where it lies already leaves the page alone,
/// with all that it holds.
pub proof fn law_page_stays_where_it_is(
    page: PageModel,
    old: HvSynicSimpSiefp,
    new: HvSynicSimpSiefp,
    reply: Result<(), HvError>,
)
    requires
        old.enabled(),
        new.enabled(),
        old.base_gpn() == new.base_gpn(),
    ensures
        page_after_write(page, old, new, reply) == page,
        page_write_requests(page, old, new, reply) == Seq::<OverlayRequest>::empty(),
        page_write_result(old, new, reply) is Ok,
{
}

/// The guest pages that `requests` leaves locked, given those that were locked
/// before.
pub open spec fn locked_after(locked: Set<u64>, requests: Seq<OverlayRequest>) -> Set<u64>
    decreases requests.len(),
{
    if requests.len() == 0 {
        locked
    } else {
        let before = locked_after(locked, requests.drop_last());
        match requests.last() {
            OverlayRequest::Lock { gpn, reply } => if reply is Ok {
                before.insert(gpn)
            } else {
                before
            },
            OverlayRequest::Unlock { gpn } => before.remove(gpn),
        }
    }
}

/// The guest page under a page of the controller.
pub open spec fn page_lock(page: PageModel) -> Set<u64> {
    match page.gpn {
        Some(gpn) => set![gpn],
        None => set![],
    }
}

/// The write of a page register leaves exactly that guest page locked which
/// the page lies over afterwards: none is forgotten, and none is given back
/// that is still in use. A page is never moved to where it is.
pub proof fn law_page_writes_balance_locks(
    page: PageModel,
    old: HvSynicSimpSiefp,
    new: HvSynicSimpSiefp,
    reply: Result<(), HvError>,
)
    requires
        page.gpn == asked_gpn(old),
    ensures
        locked_after(page_lock(page), page_write_requests(page, old, new, reply)) == page_lock(
            page_after_write(page, old, new, reply),
        ),
{
    reveal_with_fuel(locked_after, 3);
    let requests = page_write_requests(page, old, new, reply);
    if requests.len() == 2 {
        assert(requests.drop_last() =~= seq![requests[0]]);
        assert(requests.drop_last().drop_last() =~= seq![]);
    } else if requests.len() == 1 {
        assert(requests.drop_last() =~= seq![]);
    }
    assert(locked_after(page_lock(page), requests) =~= page_lock(
        page_after_write(page, old, new, reply),
    ));
}

} // verus!
