//! The controller of one virtual processor as mathematics: what its registers
//! read, and what writes and scans make of it.

use crate::access::InterruptRequest;
use crate::access::OverlayRequest;
use crate::lock::page_moved;
use crate::lock::state_moved;
use crate::lock::SharedHandle;
use crate::registers::HvError;
use crate::registers::HvRegisterName;
use crate::registers::HvRegisterValue;
use crate::registers::HvRegisterVsmVina;
use crate::registers::HvSynicSimpSiefp;
use crate::registers::MsrError;
use crate::registers::HV_REGISTER_EOM;
use crate::registers::HV_REGISTER_SCONTROL;
use crate::registers::HV_REGISTER_SIFP;
use crate::registers::HV_REGISTER_SINT0;
use crate::registers::HV_REGISTER_SINT15;
use crate::registers::HV_REGISTER_SIPP;
use crate::registers::HV_REGISTER_STIMER0_CONFIG;
use crate::registers::HV_REGISTER_STIMER3_COUNT;
use crate::registers::HV_REGISTER_SVERSION;
use crate::registers::HV_REGISTER_VSM_VINA;
use crate::registers::HV_X64_MSR_EOM;
use crate::registers::HV_X64_MSR_SCONTROL;
use crate::registers::HV_X64_MSR_SIEFP;
use crate::registers::HV_X64_MSR_SIMP;
use crate::registers::HV_X64_MSR_SINT0;
use crate::registers::HV_X64_MSR_SINT15;
use crate::registers::HV_X64_MSR_STIMER0_CONFIG;
use crate::registers::HV_X64_MSR_STIMER3_COUNT;
use crate::registers::HV_X64_MSR_SVERSION;
use crate::registers::NUM_SINTS;
use crate::registers::NUM_TIMERS;
use crate::shared::SharedModel;
use crate::sint::page_after_write;
use crate::sint::page_write_requests;
use crate::sint::page_write_result;
use crate::sint::SintModel;
use crate::timer::Timer;
use vstd::prelude::*;

verus! {

/// The earlier of two times, where there are any.
pub open spec fn earlier(a: Option<u64>, b: Option<u64>) -> Option<u64> {
    match (a, b) {
        (Some(x), Some(y)) => Some(if x <= y { x } else { y }),
        (Some(x), None) => Some(x),
        (None, _) => b,
    }
}

/// What comes of the evaluation of several timers in turn.
#[verifier::ext_equal]
pub struct TimersOutcome {
    pub timers: Seq<Timer>,
    pub sints: SintModel,
    pub requests: Seq<InterruptRequest>,
    /// The first time at which one of them is to be evaluated again.
    pub next: Option<u64>,
}

/// The outcome for the first `count` of `timers`.
pub open spec fn timers_evaluated(
    timers: Seq<Timer>,
    sints: SintModel,
    now: u64,
    count: nat,
) -> TimersOutcome
    decreases count,
{
    if count == 0 {
        TimersOutcome { timers, sints, requests: seq![], next: None }
    } else {
        let i = count - 1;
        let before = timers_evaluated(timers, sints, now, i as nat);
        let outcome = timers[i].evaluated(i as u32, before.sints, now);
        TimersOutcome {
            timers: before.timers.update(i, outcome.timer),
            sints: outcome.sints,
            requests: before.requests + outcome.requests,
            next: earlier(before.next, outcome.next),
        }
    }
}

/// The MSR behind a register name.
pub open spec fn register_msr(reg: u32) -> Option<u32> {
    if HV_REGISTER_SINT0 <= reg <= HV_REGISTER_SINT15 {
        Some((HV_X64_MSR_SINT0 + (reg - HV_REGISTER_SINT0)) as u32)
    } else if reg == HV_REGISTER_SCONTROL {
        Some(HV_X64_MSR_SCONTROL)
    } else if reg == HV_REGISTER_SVERSION {
        Some(HV_X64_MSR_SVERSION)
    } else if reg == HV_REGISTER_SIFP {
        Some(HV_X64_MSR_SIEFP)
    } else if reg == HV_REGISTER_SIPP {
        Some(HV_X64_MSR_SIMP)
    } else if reg == HV_REGISTER_EOM {
        Some(HV_X64_MSR_EOM)
    } else if HV_REGISTER_STIMER0_CONFIG <= reg <= HV_REGISTER_STIMER3_COUNT {
        Some((HV_X64_MSR_STIMER0_CONFIG + (reg - HV_REGISTER_STIMER0_CONFIG)) as u32)
    } else {
        None
    }
}

/// The error of a register access whose MSR access failed with `err`.
pub open spec fn register_error(err: MsrError) -> HvError {
    match err {
        MsrError::Unknown => HvError::UnknownRegisterName,
        MsrError::InvalidAccess => HvError::InvalidParameter,
    }
}

pub open spec fn is_sint_msr(msr: u32) -> bool {
    HV_X64_MSR_SINT0 <= msr <= HV_X64_MSR_SINT15
}

pub open spec fn is_timer_msr(msr: u32) -> bool {
    HV_X64_MSR_STIMER0_CONFIG <= msr <= HV_X64_MSR_STIMER3_COUNT
}

/// The timer that a timer MSR belongs to.
pub open spec fn msr_timer(msr: u32) -> int {
    (msr - HV_X64_MSR_STIMER0_CONFIG) / 2
}

/// A timer MSR is the count register of its timer.
pub open spec fn is_count_msr(msr: u32) -> bool {
    (msr - HV_X64_MSR_STIMER0_CONFIG) % 2 == 1
}

/// A write of the MSR goes to the state that is shared with others.
pub open spec fn is_shared_msr(msr: u32) -> bool {
    msr == HV_X64_MSR_SCONTROL || msr == HV_X64_MSR_SIEFP || is_sint_msr(msr)
}

impl SharedModel {
    /// What is shared after a write of an MSR of a processor whose `SIEFP` is
    /// `siefp`, where a request to move a page is answered with `reply`.
    pub open spec fn with_msr(
        self,
        siefp: HvSynicSimpSiefp,
        msr: u32,
        v: u64,
        reply: Result<(), HvError>,
    ) -> Self {
        if msr == HV_X64_MSR_SCONTROL {
            SharedModel { state: self.state.with_scontrol(v), ..self }
        } else if msr == HV_X64_MSR_SIEFP {
            SharedModel {
                siefp_page: page_after_write(
                    self.siefp_page,
                    siefp,
                    HvSynicSimpSiefp { bits: v },
                    reply,
                ),
                ..self
            }
        } else if is_sint_msr(msr) {
            SharedModel { state: self.state.with_sint(msr - HV_X64_MSR_SINT0, v), ..self }
        } else {
            self
        }
    }
}

/// A write of an MSR took what is shared from `before` to `after`, in one turn
/// of the processor's handle. A write that is no one else's business takes no
/// turn, and only that of the event flags page register takes the page.
pub open spec fn msr_moved_shared(
    handle: SharedHandle,
    handle_after: SharedHandle,
    msr: u32,
    before: SharedModel,
    after: SharedModel,
) -> bool {
    &&& handle_after.locks() == handle.locks()
    &&& handle_after.turns() == handle.turns() + if is_shared_msr(msr) {
        1nat
    } else {
        0nat
    }
    &&& handle_after.page_turns() == handle.page_turns() + if msr == HV_X64_MSR_SIEFP {
        1nat
    } else {
        0nat
    }
    &&& is_shared_msr(msr) ==> state_moved(handle.locks().state, before.state, after.state)
    &&& msr == HV_X64_MSR_SIEFP ==> page_moved(
        handle.locks().event_page,
        before.siefp_page,
        after.siefp_page,
    )
}

/// The controller of a virtual processor, but for the state it shares.
#[verifier::ext_equal]
pub struct ProcessorModel {
    pub sints: SintModel,
    pub timers: Seq<Timer>,
    pub vina: HvRegisterVsmVina,
}

impl ProcessorModel {
    /// The state after a reset.
    pub open spec fn fresh() -> Self {
        ProcessorModel {
            sints: SintModel::fresh(),
            timers: Seq::new(NUM_TIMERS as nat, |i: int| Timer::fresh()),
            vina: HvRegisterVsmVina { bits: 0 },
        }
    }

    /// There are as many timers, sources and bytes as there should be.
    pub open spec fn wf(self) -> bool {
        &&& self.sints.wf()
        &&& self.timers.len() == NUM_TIMERS
    }

    /// The state with the sources replaced.
    pub open spec fn with_sints(self, sints: SintModel) -> Self {
        ProcessorModel { sints, ..self }
    }

    /// The state with one timer replaced.
    pub open spec fn with_timer(self, n: int, timer: Timer) -> Self {
        ProcessorModel { timers: self.timers.update(n, timer), ..self }
    }

    /// What a read of an MSR returns.
    pub open spec fn msr(self, msr: u32) -> Result<u64, MsrError> {
        if is_timer_msr(msr) {
            let timer = self.timers[msr_timer(msr)];
            Ok(
                if is_count_msr(msr) {
                    timer.count
                } else {
                    timer.config.bits
                },
            )
        } else {
            self.nontimer_msr(msr)
        }
    }

    /// What a read of an MSR that is no timer's returns.
    pub open spec fn nontimer_msr(self, msr: u32) -> Result<u64, MsrError> {
        if msr == HV_X64_MSR_SCONTROL {
            Ok(self.sints.scontrol.bits)
        } else if msr == HV_X64_MSR_SVERSION {
            Ok(1)
        } else if msr == HV_X64_MSR_SIEFP {
            Ok(self.sints.siefp.bits)
        } else if msr == HV_X64_MSR_SIMP {
            Ok(self.sints.simp.bits)
        } else if msr == HV_X64_MSR_EOM {
            Ok(0)
        } else if is_sint_msr(msr) {
            Ok(self.sints.sint[msr - HV_X64_MSR_SINT0].bits)
        } else {
            Err(MsrError::Unknown)
        }
    }

    /// What a read of a register returns.
    pub open spec fn register(self, reg: HvRegisterName) -> Result<HvRegisterValue, HvError> {
        if reg.number == HV_REGISTER_VSM_VINA {
            Ok(HvRegisterValue { bits: self.vina.bits as u128 })
        } else {
            match register_msr(reg.number) {
                None => Err(HvError::UnknownRegisterName),
                Some(msr) => match self.msr(msr) {
                    Ok(v) => Ok(HvRegisterValue { bits: v as u128 }),
                    Err(err) => Err(register_error(err)),
                },
            }
        }
    }

    /// The result of a write of an MSR that is no timer's, where a request to
    /// move a page is answered with `reply`.
    pub open spec fn nontimer_write_result(
        self,
        msr: u32,
        v: u64,
        reply: Result<(), HvError>,
    ) -> Result<(), MsrError> {
        if msr == HV_X64_MSR_SCONTROL || msr == HV_X64_MSR_EOM || is_sint_msr(msr) {
            Ok(())
        } else if msr == HV_X64_MSR_SVERSION {
            Err(MsrError::InvalidAccess)
        } else if msr == HV_X64_MSR_SIEFP {
            page_write_result(self.sints.siefp, HvSynicSimpSiefp { bits: v }, reply)
        } else if msr == HV_X64_MSR_SIMP {
            page_write_result(self.sints.simp, HvSynicSimpSiefp { bits: v }, reply)
        } else {
            Err(MsrError::Unknown)
        }
    }

    /// The state after that write.
    pub open spec fn with_nontimer_msr(
        self,
        msr: u32,
        v: u64,
        reply: Result<(), HvError>,
    ) -> Self {
        if msr == HV_X64_MSR_SCONTROL {
            self.with_sints(self.sints.with_scontrol(v))
        } else if msr == HV_X64_MSR_SIEFP {
            self.with_sints(self.sints.with_siefp(v, reply))
        } else if msr == HV_X64_MSR_SIMP {
            self.with_sints(self.sints.with_simp(v, reply))
        } else if is_sint_msr(msr) {
            self.with_sints(self.sints.with_sint(msr - HV_X64_MSR_SINT0, v))
        } else {
            self
        }
    }

    /// The result of a write of an MSR, where a request to move a page is
    /// answered with `reply`.
    pub open spec fn msr_write_result(
        self,
        msr: u32,
        v: u64,
        reply: Result<(), HvError>,
    ) -> Result<(), MsrError> {
        if is_timer_msr(msr) {
            Ok(())
        } else {
            self.nontimer_write_result(msr, v, reply)
        }
    }

    /// The state after that write.
    pub open spec fn with_msr(self, msr: u32, v: u64, reply: Result<(), HvError>) -> Self {
        if is_timer_msr(msr) {
            let n = msr_timer(msr);
            self.with_timer(
                n,
                if is_count_msr(msr) {
                    self.timers[n].with_count(v)
                } else {
                    self.timers[n].with_config(v)
                },
            )
        } else {
            self.with_nontimer_msr(msr, v, reply)
        }
    }

    /// The requests about guest pages that a write of an MSR makes, with
    /// `shared` as the shared state.
    pub open spec fn msr_write_requests(
        self,
        shared: SharedModel,
        msr: u32,
        v: u64,
        reply: Result<(), HvError>,
    ) -> Seq<OverlayRequest> {
        let new = HvSynicSimpSiefp { bits: v };
        if msr == HV_X64_MSR_SIEFP {
            page_write_requests(shared.siefp_page, self.sints.siefp, new, reply)
        } else if msr == HV_X64_MSR_SIMP {
            page_write_requests(self.sints.simp_page, self.sints.simp, new, reply)
        } else {
            seq![]
        }
    }

    /// The result of a write of a register, where a request to move a page is
    /// answered with `reply`.
    pub open spec fn register_write_result(
        self,
        reg: HvRegisterName,
        v: HvRegisterValue,
        reply: Result<(), HvError>,
    ) -> Result<(), HvError> {
        if reg.number == HV_REGISTER_VSM_VINA {
            if (HvRegisterVsmVina { bits: v.as_u64() }).reserved() != 0 {
                Err(HvError::InvalidParameter)
            } else {
                Ok(())
            }
        } else {
            match register_msr(reg.number) {
                None => Err(HvError::UnknownRegisterName),
                Some(msr) => match self.msr_write_result(msr, v.as_u64(), reply) {
                    Ok(_) => Ok(()),
                    Err(err) => Err(register_error(err)),
                },
            }
        }
    }

    /// The state after that write.
    pub open spec fn with_register(
        self,
        reg: HvRegisterName,
        v: HvRegisterValue,
        reply: Result<(), HvError>,
    ) -> Self {
        if reg.number == HV_REGISTER_VSM_VINA {
            if (HvRegisterVsmVina { bits: v.as_u64() }).reserved() != 0 {
                self
            } else {
                ProcessorModel { vina: HvRegisterVsmVina { bits: v.as_u64() }, ..self }
            }
        } else {
            match register_msr(reg.number) {
                None => self,
                Some(msr) => self.with_msr(msr, v.as_u64(), reply),
            }
        }
    }

    /// The evaluation of all the timers in a scan, after the pending sources
    /// were looked at.
    pub open spec fn scanned_timers(self, now: u64) -> TimersOutcome {
        timers_evaluated(
            self.timers,
            self.sints.pending_checked(NUM_SINTS as nat),
            now,
            NUM_TIMERS as nat,
        )
    }

    /// The sources that a scan reports: those asked for that are ready.
    pub open spec fn scan_ready(self, now: u64) -> u16 {
        let sints = self.scanned_timers(now).sints;
        sints.ready_sints & sints.pending_sints
    }

    /// The state after a scan. The sources that it reports are no longer
    /// asked for.
    pub open spec fn scanned(self, now: u64) -> Self {
        let outcome = self.scanned_timers(now);
        ProcessorModel {
            sints: SintModel {
                pending_sints: outcome.sints.pending_sints & !self.scan_ready(now),
                ..outcome.sints
            },
            timers: outcome.timers,
            ..self
        }
    }
}

/// What a write of an MSR that is no timer's does, where a request to move a
/// page is answered with `reply` and `shared` is found behind the locks.
pub open spec fn nontimer_msr_written(
    before: ProcessorModel,
    after: ProcessorModel,
    handle: SharedHandle,
    handle_after: SharedHandle,
    shared: SharedModel,
    reply: Result<(), HvError>,
    msr: u32,
    v: u64,
    result: Result<(), MsrError>,
    requests: Seq<OverlayRequest>,
) -> bool {
    &&& result == before.nontimer_write_result(msr, v, reply)
    &&& after == before.with_nontimer_msr(msr, v, reply)
    &&& requests == before.msr_write_requests(shared, msr, v, reply)
    &&& msr_moved_shared(
        handle,
        handle_after,
        msr,
        shared,
        shared.with_msr(before.sints.siefp, msr, v, reply),
    )
}

/// What a write of an MSR does, where a request to move a page is answered
/// with `reply` and `shared` is found behind the locks.
pub open spec fn msr_written(
    before: ProcessorModel,
    after: ProcessorModel,
    handle: SharedHandle,
    handle_after: SharedHandle,
    shared: SharedModel,
    reply: Result<(), HvError>,
    msr: u32,
    v: u64,
    result: Result<(), MsrError>,
    requests: Seq<OverlayRequest>,
) -> bool {
    &&& result == before.msr_write_result(msr, v, reply)
    &&& after == before.with_msr(msr, v, reply)
    &&& requests == before.msr_write_requests(shared, msr, v, reply)
    &&& msr_moved_shared(
        handle,
        handle_after,
        msr,
        shared,
        shared.with_msr(before.sints.siefp, msr, v, reply),
    )
}

/// What a write of a register does, where a request to move a page is answered
/// with `reply` and `shared` is found behind the locks.
pub open spec fn register_written(
    before: ProcessorModel,
    after: ProcessorModel,
    handle: SharedHandle,
    handle_after: SharedHandle,
    shared: SharedModel,
    reply: Result<(), HvError>,
    reg: HvRegisterName,
    v: HvRegisterValue,
    result: Result<(), HvError>,
    requests: Seq<OverlayRequest>,
) -> bool {
    &&& result == before.register_write_result(reg, v, reply)
    &&& after == before.with_register(reg, v, reply)
    &&& match register_msr(reg.number) {
        Some(msr) => {
            &&& requests == before.msr_write_requests(shared, msr, v.as_u64(), reply)
            &&& msr_moved_shared(
                handle,
                handle_after,
                msr,
                shared,
                shared.with_msr(before.sints.siefp, msr, v.as_u64(), reply),
            )
        },
        None => {
            &&& requests == Seq::<OverlayRequest>::empty()
            &&& handle_after == handle
        },
    }
}

} // verus!
