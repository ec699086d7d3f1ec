//! The controller of one virtual processor.

use crate::access::InterruptRequest;
use crate::access::OverlayRequest;
use crate::access::RequestInterrupt;
use crate::access::VtlProtectAccess;
use crate::lock::page_hold;
use crate::lock::page_moved;
use crate::lock::page_mut;
use crate::lock::page_released;
use crate::lock::release_page;
use crate::lock::release_state;
use crate::lock::state_hold;
use crate::lock::state_moved;
use crate::lock::state_mut;
use crate::lock::state_released;
use crate::lock::SharedHandle;
use crate::message::HvMessage;
use crate::model::msr_written;
use crate::model::nontimer_msr_written;
use crate::model::register_error;
use crate::model::register_msr;
use crate::model::register_written;
use crate::model::timers_evaluated;
use crate::model::ProcessorModel;
use crate::model::TimersOutcome;
use crate::overlay::OverlayPage;
use crate::overlay::PageModel;
use crate::overlay::HV_PAGE_SIZE_USIZE;
use crate::registers::has_sint;
use crate::registers::lemma_empty_mask;
use crate::registers::lemma_has_sint;
use crate::registers::HvError;
use crate::registers::HvRegisterName;
use crate::registers::HvRegisterValue;
use crate::registers::HvRegisterVsmVina;
use crate::registers::HvSynicSimpSiefp;
use crate::registers::MsrError;
use crate::registers::HV_REGISTER_EOM;
use crate::registers::HV_REGISTER_SCONTROL;
use crate::registers::HV_REGISTER_SIFP;
use crate::registers::HV_REGISTER_SINT0;
use crate::registers::HV_REGISTER_SINT15;
use crate::registers::HV_REGISTER_SIPP;
use crate::registers::HV_REGISTER_STIMER0_CONFIG;
use crate::registers::HV_REGISTER_STIMER3_COUNT;
use crate::registers::HV_REGISTER_SVERSION;
use crate::registers::HV_REGISTER_VSM_VINA;
use crate::registers::HV_SYNIC_INTERCEPTION_SINT_INDEX;
use crate::registers::HV_X64_MSR_EOM;
use crate::registers::HV_X64_MSR_SCONTROL;
use crate::registers::HV_X64_MSR_SIEFP;
use crate::registers::HV_X64_MSR_SIMP;
use crate::registers::HV_X64_MSR_SINT0;
use crate::registers::HV_X64_MSR_SINT15;
use crate::registers::HV_X64_MSR_STIMER0_CONFIG;
use crate::registers::HV_X64_MSR_STIMER3_COUNT;
use crate::registers::HV_X64_MSR_SVERSION;
use crate::registers::NUM_SINTS;
use crate::registers::NUM_TIMERS;
use crate::shared::SharedModel;
use crate::shared::SharedProcessorState;
use crate::shared::SintProxied;
use crate::shared::StateModel;
use crate::sint::page_after_write;
use crate::sint::page_write_requests;
use crate::sint::page_write_result;
use crate::sint::SintModel;
use crate::sint::SintState;
use crate::timer::Timer;
use vstd::prelude::*;

verus! {

/// The virtual processor synthetic interrupt controller state.
pub struct ProcessorSynic {
    sints: SintState,
    timers: [Timer; NUM_TIMERS],
    shared: SharedHandle,
    vina: HvRegisterVsmVina,
}

impl View for ProcessorSynic {
    type V = ProcessorModel;

    closed spec fn view(&self) -> ProcessorModel {
        ProcessorModel { sints: self.sints@, timers: self.timers@, vina: self.vina }
    }
}

impl ProcessorSynic {
    /// The access to what is shared with other processors. It counts how
    /// often its locks were taken.
    pub closed spec fn handle(&self) -> SharedHandle {
        self.shared
    }

    /// Every controller has all its timers, sources and pages.
    pub proof fn lemma_wf(&self)
        ensures
            self@.wf(),
    {
    }

    /// A controller in its initial state, with the given access to what it
    /// shares.
    pub(crate) fn new(shared: SharedHandle) -> (synic: Self)
        ensures
            synic@ == ProcessorModel::fresh(),
            synic.handle() == shared,
    {
        let synic = ProcessorSynic {
            sints: SintState::default(),
            timers: [Timer::default();NUM_TIMERS],
            shared,
            vina: HvRegisterVsmVina { bits: 0 },
        };
        assert(synic@ =~= ProcessorModel::fresh());
        synic
    }

    /// Resets the synic state back to its initial state.
    pub fn reset(&mut self)
        ensures
            final(self)@ == ProcessorModel::fresh(),
            final(self).handle().locks() == old(self).handle().locks(),
            final(self).handle().turns() == old(self).handle().turns() + 1,
            final(self).handle().page_turns() == old(self).handle().page_turns() + 1,
            exists|shared: SharedModel|
                {
                    &&& #[trigger] state_moved(
                        old(self).handle().locks().state,
                        shared.state,
                        StateModel::at_reset(shared.state.index),
                    )
                    &&& #[trigger] page_moved(
                        old(self).handle().locks().event_page,
                        shared.siefp_page,
                        PageModel::fresh(),
                    )
                },
    {
        self.sints = SintState::default();
        self.timers = [Timer::default();NUM_TIMERS];
        let (mut guard, mut page_guard) = self.shared.write_state_and_page();
        let ghost shared = SharedModel {
            state: state_hold(guard).found,
            siefp_page: page_hold(page_guard).found.page,
        };
        let state = state_mut(&mut guard);
        *state = SharedProcessorState::at_reset(state.index);
        page_mut(&mut page_guard).page = OverlayPage::default();
        let page_receipt = release_page(page_guard);
        let receipt = release_state(guard);
        proof {
            let locks = old(self).handle().locks();
            assert(state_released(receipt).now == StateModel::at_reset(shared.state.index));
            assert(state_moved(
                locks.state,
                shared.state,
                StateModel::at_reset(shared.state.index),
            ));
            assert(page_released(page_receipt).found.page == shared.siefp_page);
            assert(page_moved(locks.event_page, shared.siefp_page, PageModel::fresh()));
        }
        self.vina = HvRegisterVsmVina { bits: 0 };
        assert(self@ =~= ProcessorModel::fresh());
    }

    /// Returns the event flags page register.
    pub fn siefp(&self) -> (v: u64)
        ensures
            v == self@.sints.siefp.bits,
    {
        self.sints.siefp.bits
    }

    /// Returns the message page register.
    pub fn simp(&self) -> (v: u64)
        ensures
            v == self@.sints.simp.bits,
    {
        self.sints.simp.bits
    }

    /// Returns the `SCONTROL` register.
    pub fn scontrol(&self) -> (v: u64)
        ensures
            v == self@.sints.scontrol.bits,
    {
        self.sints.scontrol.bits
    }

    /// Returns the `SVERSION` register.
    pub fn sversion(&self) -> (v: u64)
        ensures
            v == 1,
    {
        1
    }

    /// Returns the end-of-message register.
    pub fn eom(&self) -> (v: u64)
        ensures
            v == 0,
    {
        0
    }

    /// Returns the specified `SINT` register.
    pub fn sint(&self, n: u8) -> (v: u64)
        requires
            n < NUM_SINTS,
        ensures
            v == self@.sints.sint[n as int].bits,
    {
        self.sints.sint[n as usize].bits
    }

    /// Returns the set of SINTs that are proxied to the host.
    pub fn proxied_sints(&self) -> (sints: u16)
        ensures
            forall|i: u8|
                i < NUM_SINTS ==> #[trigger] has_sint(sints, i)
                    == self@.sints.sint[i as int].proxy(),
    {
        let mut sints: u16 = 0;
        let mut n: u8 = 0;
        proof {
            assert forall|i: u8| i < NUM_SINTS implies !(#[trigger] has_sint(0, i)) by {
                lemma_has_sint(0, 0, i, i);
            }
        }
        while (n as usize) < NUM_SINTS
            invariant
                n <= NUM_SINTS,
                forall|i: u8|
                    i < NUM_SINTS ==> #[trigger] has_sint(sints, i) == (i < n
                        && self@.sints.sint[i as int].proxy()),
            decreases NUM_SINTS - n,
        {
            let ghost before = sints;
            if self.sints.sint[n as usize].proxy() {
                sints = sints | (1u16 << n);
            }
            proof {
                assert forall|i: u8| i < NUM_SINTS implies #[trigger] has_sint(sints, i) == (i < n
                    + 1 && self@.sints.sint[i as int].proxy()) by {
                    assert(has_sint(before, i) == (i < n && self@.sints.sint[i as int].proxy()));
                    lemma_has_sint(before, 0, i, n);
                }
            }
            n += 1;
        }
        sints
    }

    /// Returns the specified synthetic timer configuration register.
    pub fn stimer_config(&self, n: usize) -> (v: u64)
        requires
            n < NUM_TIMERS,
        ensures
            v == self@.timers[n as int].config.bits,
    {
        self.timers[n].config.bits
    }

    /// Returns the specified synthetic timer count register.
    pub fn stimer_count(&self, n: usize) -> (v: u64)
        requires
            n < NUM_TIMERS,
        ensures
            v == self@.timers[n as int].count,
    {
        self.timers[n].count
    }

    /// Returns the value of the VINA register.
    pub fn vina(&self) -> (vina: HvRegisterVsmVina)
        ensures
            vina == self@.vina,
    {
        self.vina
    }

    /// Sets the event flags page register.
    pub fn set_siefp<P: VtlProtectAccess + ?Sized>(
        &mut self,
        v: u64,
        prot_access: &mut P,
    ) -> (result: Result<(), MsrError>)
        ensures
            final(self).handle().locks() == old(self).handle().locks(),
            final(self).handle().turns() == old(self).handle().turns() + 1,
            final(self).handle().page_turns() == old(self).handle().page_turns() + 1,
            exists|reply: Result<(), HvError>, shared: SharedModel|
                {
                    &&& result == page_write_result(
                        old(self)@.sints.siefp,
                        HvSynicSimpSiefp { bits: v },
                        reply,
                    )
                    &&& final(self)@ == old(self)@.with_sints(
                        old(self)@.sints.with_siefp(v, reply),
                    )
                    &&& #[trigger] state_moved(
                        old(self).handle().locks().state,
                        shared.state,
                        shared.state,
                    )
                    &&& #[trigger] page_moved(
                        old(self).handle().locks().event_page,
                        shared.siefp_page,
                        page_after_write(
                            shared.siefp_page,
                            old(self)@.sints.siefp,
                            HvSynicSimpSiefp { bits: v },
                            reply,
                        ),
                    )
                    &&& final(prot_access).overlay_requests() == old(
                        prot_access,
                    ).overlay_requests() + page_write_requests(
                        shared.siefp_page,
                        old(self)@.sints.siefp,
                        HvSynicSimpSiefp { bits: v },
                        reply,
                    )
                },
    {
        let (guard, mut page_guard) = self.shared.write_state_and_page();
        let ghost state = state_hold(guard).found;
        let ghost page = page_hold(page_guard).found.page;
        let result = self.sints.set_siefp(&mut page_mut(&mut page_guard).page, v, prot_access);
        let page_receipt = release_page(page_guard);
        let receipt = release_state(guard);
        proof {
            let locks = old(self).handle().locks();
            let siefp = old(self)@.sints.siefp;
            let new = HvSynicSimpSiefp { bits: v };
            let left = page_released(page_receipt).now.page;
            let reply = choose|reply: Result<(), HvError>|
                {
                    &&& result == page_write_result(siefp, new, reply)
                    &&& self@.sints == #[trigger] old(self)@.sints.with_siefp(v, reply)
                    &&& left == page_after_write(page, siefp, new, reply)
                    &&& prot_access.overlay_requests() == old(prot_access).overlay_requests()
                        + page_write_requests(page, siefp, new, reply)
                };
            let shared = SharedModel { state, siefp_page: page };
            assert(self@ =~= old(self)@.with_sints(old(self)@.sints.with_siefp(v, reply)));
            assert(state_released(receipt).now == shared.state);
            assert(state_moved(locks.state, shared.state, shared.state));
            assert(page_moved(
                locks.event_page,
                shared.siefp_page,
                page_after_write(shared.siefp_page, siefp, new, reply),
            ));
        }
        result
    }

    /// Sets the message page register.
    pub fn set_simp<P: VtlProtectAccess + ?Sized>(
        &mut self,
        v: u64,
        prot_access: &mut P,
    ) -> (result: Result<(), MsrError>)
        ensures
            final(self).handle() == old(self).handle(),
            exists|reply: Result<(), HvError>|
                {
                    &&& result == page_write_result(
                        old(self)@.sints.simp,
                        HvSynicSimpSiefp { bits: v },
                        reply,
                    )
                    &&& final(self)@ == old(self)@.with_sints(
                        #[trigger] old(self)@.sints.with_simp(v, reply),
                    )
                    &&& final(prot_access).overlay_requests() == old(
                        prot_access,
                    ).overlay_requests() + page_write_requests(
                        old(self)@.sints.simp_page,
                        old(self)@.sints.simp,
                        HvSynicSimpSiefp { bits: v },
                        reply,
                    )
                },
    {
        self.sints.set_simp(v, prot_access)
    }

    /// Sets the `SCONTROL` register.
    pub fn set_scontrol(&mut self, v: u64)
        ensures
            final(self)@ == old(self)@.with_sints(old(self)@.sints.with_scontrol(v)),
            final(self).handle().locks() == old(self).handle().locks(),
            final(self).handle().turns() == old(self).handle().turns() + 1,
            final(self).handle().page_turns() == old(self).handle().page_turns(),
            exists|state: StateModel| #[trigger]
                state_moved(old(self).handle().locks().state, state, state.with_scontrol(v)),
    {
        let mut guard = self.shared.write_state();
        let ghost state = state_hold(guard).found;
        self.sints.set_scontrol(state_mut(&mut guard), v);
        let receipt = release_state(guard);
        assert(state_released(receipt).now == state.with_scontrol(v));
        assert(state_moved(old(self).handle().locks().state, state, state.with_scontrol(v)));
    }

    /// Performs an end-of-message operation.
    pub fn set_eom(&mut self, _v: u64)
        ensures
            final(self)@ == old(self)@,
            final(self).handle() == old(self).handle(),
    {
        // The messages that wait for a slot are found by the next scan.
    }

    /// Sets the specified `SINT` register.
    pub fn set_sint(&mut self, n: usize, v: u64)
        requires
            n < NUM_SINTS,
        ensures
            final(self)@ == old(self)@.with_sints(old(self)@.sints.with_sint(n as int, v)),
            final(self).handle().locks() == old(self).handle().locks(),
            final(self).handle().turns() == old(self).handle().turns() + 1,
            final(self).handle().page_turns() == old(self).handle().page_turns(),
            exists|state: StateModel| #[trigger]
                state_moved(old(self).handle().locks().state, state, state.with_sint(n as int, v)),
    {
        let mut guard = self.shared.write_state();
        let ghost state = state_hold(guard).found;
        self.sints.set_sint(state_mut(&mut guard), n, v);
        let receipt = release_state(guard);
        assert(state_released(receipt).now == state.with_sint(n as int, v));
        assert(state_moved(old(self).handle().locks().state, state, state.with_sint(n as int, v)));
    }

    /// Sets the specified synthetic timer configuration register.
    pub fn set_stimer_config(&mut self, n: usize, v: u64)
        requires
            n < NUM_TIMERS,
        ensures
            final(self)@ == old(self)@.with_timer(
                n as int,
                old(self)@.timers[n as int].with_config(v),
            ),
            final(self).handle() == old(self).handle(),
    {
        let mut timer = self.timers[n];
        timer.set_config(v);
        self.timers[n] = timer;
    }

    /// Sets the specified synthetic timer count register.
    pub fn set_stimer_count(&mut self, n: usize, v: u64)
        requires
            n < NUM_TIMERS,
        ensures
            final(self)@ == old(self)@.with_timer(
                n as int,
                old(self)@.timers[n as int].with_count(v),
            ),
            final(self).handle() == old(self).handle(),
    {
        let mut timer = self.timers[n];
        timer.set_count(v);
        self.timers[n] = timer;
    }

    /// Requests a notification when any of the requested sints has a free
    /// message slot.
    ///
    /// The free sints will be returned by [`Self::scan`].
    ///
    /// Returns `Err(SintProxied)`, and requests nothing, if any of them is
    /// proxied.
    pub fn request_sint_readiness(&mut self, sints: u16) -> (result: Result<(), SintProxied>)
        ensures
            result is Err <==> old(self)@.sints.any_proxied(sints),
            result is Err ==> final(self)@ == old(self)@,
            result is Ok ==> final(self)@ == old(self)@.with_sints(
                (SintModel { pending_sints: sints, ..old(self)@.sints }),
            ),
            final(self).handle() == old(self).handle(),
    {
        let proxied: u16 = self.proxied_sints();
        assert(sints & proxied != 0 <==> self@.sints.any_proxied(sints)) by {
            assert forall|i: u8| i < NUM_SINTS implies {
                &&& !has_sint(0, i)
                &&& #[trigger] has_sint(sints & proxied, i) == (has_sint(sints, i)
                    && self@.sints.sint[i as int].proxy())
            } by {
                lemma_has_sint(sints, proxied, i, i);
            }
            if sints & proxied != 0 && !self@.sints.any_proxied(sints) {
                lemma_empty_mask(sints & proxied);
            }
            if self@.sints.any_proxied(sints) {
                let i = choose|i: u8|
                    i < NUM_SINTS && #[trigger] has_sint(sints, i)
                        && self@.sints.sint[i as int].proxy();
                assert(has_sint(sints & proxied, i));
            }
        }
        if sints & proxied != 0 {
            return Err(SintProxied);
        }
        self.sints.pending_sints = sints;
        Ok(())
    }

    /// Writes a message to the message page.
    ///
    /// Returns `Err(HvError::ObjectInUse)` if the message slot is full.
    pub fn post_message<I: RequestInterrupt + ?Sized>(
        &mut self,
        sint_index: u8,
        message: &HvMessage,
        interrupt: &mut I,
    ) -> (result: Result<(), HvError>)
        requires
            sint_index < NUM_SINTS,
        ensures
            result == old(self)@.sints.post_result(sint_index),
            final(self)@ == old(self)@.with_sints(
                old(self)@.sints.after_post(sint_index, message.bytes()),
            ),
            final(self).handle() == old(self).handle(),
            final(interrupt).requests() == old(interrupt).requests()
                + old(self)@.sints.post_requests(sint_index),
    {
        assert(interrupt.requests() + Seq::<InterruptRequest>::empty() =~= interrupt.requests());
        let sint = self.sints.sint[sint_index as usize];
        if sint.masked() || sint.proxy() {
            return Err(HvError::InvalidSynicState);
        }
        if self.sints.ready_sints & (1u16 << sint_index) == 0 {
            return Err(HvError::ObjectInUse);
        }
        self.sints.post_message(sint_index, message, interrupt);
        Ok(())
    }

    /// Writes an intercept message to the message page. Meant to be used on
    /// paths where the message can be written directly without using the
    /// message queues, as it marks the intercept sint as ready.
    ///
    /// Returns `Err(HvError::ObjectInUse)` if the message slot is full.
    pub fn post_intercept_message<I: RequestInterrupt + ?Sized>(
        &mut self,
        message: &HvMessage,
        interrupt: &mut I,
    ) -> (result: Result<(), HvError>)
        ensures
            final(self).handle() == old(self).handle(),
            ({
                let checked = old(self)@.sints.checked(HV_SYNIC_INTERCEPTION_SINT_INDEX);
                if old(self)@.sints.found_ready(HV_SYNIC_INTERCEPTION_SINT_INDEX) {
                    &&& result == checked.post_result(HV_SYNIC_INTERCEPTION_SINT_INDEX)
                    &&& final(self)@ == old(self)@.with_sints(
                        checked.after_post(HV_SYNIC_INTERCEPTION_SINT_INDEX, message.bytes()),
                    )
                    &&& final(interrupt).requests() == old(interrupt).requests()
                        + checked.post_requests(HV_SYNIC_INTERCEPTION_SINT_INDEX)
                } else {
                    &&& result == Err::<(), HvError>(HvError::ObjectInUse)
                    &&& final(self)@ == old(self)@.with_sints(checked)
                    &&& final(interrupt).requests() == old(interrupt).requests()
                }
            }),
    {
        if self.sints.check_sint_ready(HV_SYNIC_INTERCEPTION_SINT_INDEX) {
            self.post_message(HV_SYNIC_INTERCEPTION_SINT_INDEX, message, interrupt)
        } else {
            Err(HvError::ObjectInUse)
        }
    }

    /// Returns the MSR behind a register name.
    pub fn reg_to_msr(reg: HvRegisterName) -> (msr: Result<u32, HvError>)
        ensures
            msr == (match register_msr(reg.number) {
                Some(msr) => Ok(msr),
                None => Err(HvError::UnknownRegisterName),
            }),
    {
        let number: u32 = reg.number;
        if HV_REGISTER_SINT0 <= number && number <= HV_REGISTER_SINT15 {
            Ok(HV_X64_MSR_SINT0 + (number - HV_REGISTER_SINT0))
        } else if number == HV_REGISTER_SCONTROL {
            Ok(HV_X64_MSR_SCONTROL)
        } else if number == HV_REGISTER_SVERSION {
            Ok(HV_X64_MSR_SVERSION)
        } else if number == HV_REGISTER_SIFP {
            Ok(HV_X64_MSR_SIEFP)
        } else if number == HV_REGISTER_SIPP {
            Ok(HV_X64_MSR_SIMP)
        } else if number == HV_REGISTER_EOM {
            Ok(HV_X64_MSR_EOM)
        } else if HV_REGISTER_STIMER0_CONFIG <= number && number <= HV_REGISTER_STIMER3_COUNT {
            Ok(HV_X64_MSR_STIMER0_CONFIG + (number - HV_REGISTER_STIMER0_CONFIG))
        } else {
            Err(HvError::UnknownRegisterName)
        }
    }

    /// Returns the error of a register access whose MSR access failed.
    pub fn msrerr_to_hverr(err: MsrError) -> (error: HvError)
        ensures
            error == register_error(err),
    {
        match err {
            MsrError::Unknown => HvError::UnknownRegisterName,
            MsrError::InvalidAccess => HvError::InvalidParameter,
        }
    }

    /// Writes a synthetic interrupt controller register.
    pub fn write_reg<P: VtlProtectAccess + ?Sized>(
        &mut self,
        reg: HvRegisterName,
        v: HvRegisterValue,
        prot_access: &mut P,
    ) -> (result: Result<(), HvError>)
        ensures
            exists|reply: Result<(), HvError>, shared: SharedModel, requests: Seq<OverlayRequest>|
                {
                    &&& #[trigger] register_written(
                        old(self)@,
                        final(self)@,
                        old(self).handle(),
                        final(self).handle(),
                        shared,
                        reply,
                        reg,
                        v,
                        result,
                        requests,
                    )
                    &&& final(prot_access).overlay_requests() == old(
                        prot_access,
                    ).overlay_requests() + requests
                },
    {
        if reg.number == HV_REGISTER_VSM_VINA {
            let vina = HvRegisterVsmVina { bits: v.as_u64() };
            let result: Result<(), HvError> = if vina.reserved() != 0 {
                Err(HvError::InvalidParameter)
            } else {
                self.vina = vina;
                Ok(())
            };
            proof {
                let shared = arbitrary::<SharedModel>();
                let requests = Seq::<OverlayRequest>::empty();
                assert(prot_access.overlay_requests() + requests
                    =~= prot_access.overlay_requests());
                assert(register_written(
                    old(self)@,
                    self@,
                    old(self).handle(),
                    self.handle(),
                    shared,
                    Ok(()),
                    reg,
                    v,
                    result,
                    requests,
                ));
            }
            return result;
        }
        match Self::reg_to_msr(reg) {
            Ok(msr) => {
                let written = self.write_msr(msr, v.as_u64(), prot_access);
                let result: Result<(), HvError> = match written {
                    Ok(_) => Ok(()),
                    Err(err) => Err(Self::msrerr_to_hverr(err)),
                };
                proof {
                    let (reply, shared, requests) = choose|
                        reply: Result<(), HvError>,
                        shared: SharedModel,
                        requests: Seq<OverlayRequest>,
                    |
                        {
                            &&& #[trigger] msr_written(
                                old(self)@,
                                self@,
                                old(self).handle(),
                                self.handle(),
                                shared,
                                reply,
                                msr,
                                v.as_u64(),
                                written,
                                requests,
                            )
                            &&& prot_access.overlay_requests() == old(
                                prot_access,
                            ).overlay_requests() + requests
                        };
                    assert(register_written(
                        old(self)@,
                        self@,
                        old(self).handle(),
                        self.handle(),
                        shared,
                        reply,
                        reg,
                        v,
                        result,
                        requests,
                    ));
                }
                result
            },
            Err(err) => {
                proof {
                    let shared = arbitrary::<SharedModel>();
                    let requests = Seq::<OverlayRequest>::empty();
                    assert(prot_access.overlay_requests() + requests
                        =~= prot_access.overlay_requests());
                    assert(register_written(
                        old(self)@,
                        self@,
                        old(self).handle(),
                        self.handle(),
                        shared,
                        Ok(()),
                        reg,
                        v,
                        Err(err),
                        requests,
                    ));
                }
                Err(err)
            },
        }
    }

    /// Writes an x64 MSR.
    pub fn write_msr<P: VtlProtectAccess + ?Sized>(
        &mut self,
        msr: u32,
        v: u64,
        prot_access: &mut P,
    ) -> (result: Result<(), MsrError>)
        ensures
            exists|reply: Result<(), HvError>, shared: SharedModel, requests: Seq<OverlayRequest>|
                {
                    &&& #[trigger] msr_written(
                        old(self)@,
                        final(self)@,
                        old(self).handle(),
                        final(self).handle(),
                        shared,
                        reply,
                        msr,
                        v,
                        result,
                        requests,
                    )
                    &&& final(prot_access).overlay_requests() == old(
                        prot_access,
                    ).overlay_requests() + requests
                },
    {
        if HV_X64_MSR_STIMER0_CONFIG <= msr && msr <= HV_X64_MSR_STIMER3_COUNT {
            let offset: u32 = msr - HV_X64_MSR_STIMER0_CONFIG;
            assert(offset >> 1 == offset / 2 && offset & 1 == offset % 2) by (bit_vector);
            let timer: usize = (offset >> 1) as usize;
            let is_count: bool = offset & 1 != 0;
            if is_count {
                self.set_stimer_count(timer, v);
            } else {
                self.set_stimer_config(timer, v);
            }
            proof {
                let shared = arbitrary::<SharedModel>();
                let requests = Seq::<OverlayRequest>::empty();
                assert(prot_access.overlay_requests() + requests
                    =~= prot_access.overlay_requests());
                assert(msr_written(
                    old(self)@,
                    self@,
                    old(self).handle(),
                    self.handle(),
                    shared,
                    Ok(()),
                    msr,
                    v,
                    Ok(()),
                    requests,
                ));
            }
            Ok(())
        } else {
            let result = self.write_nontimer_msr(msr, v, prot_access);
            proof {
                let (reply, shared, requests) = choose|
                    reply: Result<(), HvError>,
                    shared: SharedModel,
                    requests: Seq<OverlayRequest>,
                |
                    {
                        &&& #[trigger] nontimer_msr_written(
                            old(self)@,
                            self@,
                            old(self).handle(),
                            self.handle(),
                            shared,
                            reply,
                            msr,
                            v,
                            result,
                            requests,
                        )
                        &&& prot_access.overlay_requests() == old(prot_access).overlay_requests()
                            + requests
                    };
                assert(msr_written(
                    old(self)@,
                    self@,
                    old(self).handle(),
                    self.handle(),
                    shared,
                    reply,
                    msr,
                    v,
                    result,
                    requests,
                ));
            }
            result
        }
    }

    /// Writes a non-synthetic-timer x64 MSR.
    pub fn write_nontimer_msr<P: VtlProtectAccess + ?Sized>(
        &mut self,
        msr: u32,
        v: u64,
        prot_access: &mut P,
    ) -> (result: Result<(), MsrError>)
        ensures
            exists|reply: Result<(), HvError>, shared: SharedModel, requests: Seq<OverlayRequest>|
                {
                    &&& #[trigger] nontimer_msr_written(
                        old(self)@,
                        final(self)@,
                        old(self).handle(),
                        final(self).handle(),
                        shared,
                        reply,
                        msr,
                        v,
                        result,
                        requests,
                    )
                    &&& final(prot_access).overlay_requests() == old(
                        prot_access,
                    ).overlay_requests() + requests
                },
    {
        let ghost mut reply: Result<(), HvError> = Ok(());
        let ghost mut shared = arbitrary::<SharedModel>();
        let ghost new = HvSynicSimpSiefp { bits: v };
        let ghost locks = self.handle().locks();
        assert(prot_access.overlay_requests() + Seq::<OverlayRequest>::empty()
            =~= prot_access.overlay_requests());
        let result: Result<(), MsrError> = if msr == HV_X64_MSR_SCONTROL {
            self.set_scontrol(v);
            proof {
                let state = choose|state: StateModel| #[trigger]
                    state_moved(locks.state, state, state.with_scontrol(v));
                shared = SharedModel { state, ..shared };
            }
            Ok(())
        } else if msr == HV_X64_MSR_SVERSION {
            Err(MsrError::InvalidAccess)
        } else if msr == HV_X64_MSR_SIEFP {
            let result = self.set_siefp(v, prot_access);
            proof {
                let siefp = old(self)@.sints.siefp;
                let (r, s) = choose|r: Result<(), HvError>, s: SharedModel|
                    {
                        &&& result == page_write_result(siefp, new, r)
                        &&& self@ == old(self)@.with_sints(old(self)@.sints.with_siefp(v, r))
                        &&& #[trigger] state_moved(locks.state, s.state, s.state)
                        &&& #[trigger] page_moved(
                            locks.event_page,
                            s.siefp_page,
                            page_after_write(s.siefp_page, siefp, new, r),
                        )
                        &&& prot_access.overlay_requests() == old(prot_access).overlay_requests()
                            + page_write_requests(s.siefp_page, siefp, new, r)
                    };
                reply = r;
                shared = s;
            }
            result
        } else if msr == HV_X64_MSR_SIMP {
            let result = self.set_simp(v, prot_access);
            proof {
                let sints = old(self)@.sints;
                reply = choose|r: Result<(), HvError>|
                    {
                        &&& result == page_write_result(sints.simp, new, r)
                        &&& self@ == old(self)@.with_sints(#[trigger] sints.with_simp(v, r))
                        &&& prot_access.overlay_requests() == old(prot_access).overlay_requests()
                            + page_write_requests(sints.simp_page, sints.simp, new, r)
                    };
            }
            result
        } else if msr == HV_X64_MSR_EOM {
            self.set_eom(v);
            Ok(())
        } else if HV_X64_MSR_SINT0 <= msr && msr <= HV_X64_MSR_SINT15 {
            self.set_sint((msr - HV_X64_MSR_SINT0) as usize, v);
            proof {
                let n = msr - HV_X64_MSR_SINT0;
                let state = choose|state: StateModel| #[trigger]
                    state_moved(locks.state, state, state.with_sint(n, v));
                shared = SharedModel { state, ..shared };
            }
            Ok(())
        } else {
            Err(MsrError::Unknown)
        };
        assert(nontimer_msr_written(
            old(self)@,
            self@,
            old(self).handle(),
            self.handle(),
            shared,
            reply,
            msr,
            v,
            result,
            old(self)@.msr_write_requests(shared, msr, v, reply),
        ));
        result
    }

    /// Reads a synthetic interrupt controller register.
    pub fn read_reg(&self, reg: HvRegisterName) -> (value: Result<HvRegisterValue, HvError>)
        ensures
            value == self@.register(reg),
    {
        if reg.number == HV_REGISTER_VSM_VINA {
            return Ok(HvRegisterValue::from_u64(self.vina.bits));
        }
        match Self::reg_to_msr(reg) {
            Ok(msr) => match self.read_msr(msr) {
                Ok(v) => Ok(HvRegisterValue::from_u64(v)),
                Err(err) => Err(Self::msrerr_to_hverr(err)),
            },
            Err(err) => Err(err),
        }
    }

    /// Reads an x64 MSR.
    pub fn read_msr(&self, msr: u32) -> (value: Result<u64, MsrError>)
        ensures
            value == self@.msr(msr),
    {
        if HV_X64_MSR_STIMER0_CONFIG <= msr && msr <= HV_X64_MSR_STIMER3_COUNT {
            let offset: u32 = msr - HV_X64_MSR_STIMER0_CONFIG;
            assert(offset >> 1 == offset / 2 && offset & 1 == offset % 2) by (bit_vector);
            let timer: usize = (offset >> 1) as usize;
            let is_count: bool = offset & 1 != 0;
            if is_count {
                Ok(self.stimer_count(timer))
            } else {
                Ok(self.stimer_config(timer))
            }
        } else {
            self.read_nontimer_msr(msr)
        }
    }

    /// Reads a non-synthetic-timer x64 MSR.
    pub fn read_nontimer_msr(&self, msr: u32) -> (value: Result<u64, MsrError>)
        ensures
            value == self@.nontimer_msr(msr),
    {
        if msr == HV_X64_MSR_SCONTROL {
            Ok(self.scontrol())
        } else if msr == HV_X64_MSR_SVERSION {
            Ok(self.sversion())
        } else if msr == HV_X64_MSR_SIEFP {
            Ok(self.siefp())
        } else if msr == HV_X64_MSR_SIMP {
            Ok(self.simp())
        } else if msr == HV_X64_MSR_EOM {
            Ok(self.eom())
        } else if HV_X64_MSR_SINT0 <= msr && msr <= HV_X64_MSR_SINT15 {
            Ok(self.sint((msr - HV_X64_MSR_SINT0) as u8))
        } else {
            Err(MsrError::Unknown)
        }
    }

    /// Returns whether a timer has anything to do.
    fn timers_are_busy(&self) -> (busy: bool)
        ensures
            busy == exists|i: int| 0 <= i < NUM_TIMERS && !#[trigger] self@.timers[i].is_idle(),
    {
        let mut n: usize = 0;
        while n < NUM_TIMERS
            invariant
                n <= NUM_TIMERS,
                forall|i: int| 0 <= i < n ==> #[trigger] self@.timers[i].is_idle(),
            decreases NUM_TIMERS - n,
        {
            if self.timers[n].reevaluate || self.timers[n].due_time.is_some() {
                assert(!self@.timers[n as int].is_idle());
                return true;
            }
            n += 1;
        }
        false
    }

    /// Evaluates all the timers. Returns the time at which the next one is
    /// due.
    fn evaluate_timers<I: RequestInterrupt + ?Sized>(
        &mut self,
        ref_time_now: u64,
        interrupt: &mut I,
    ) -> (next_ref_time: Option<u64>)
        ensures
            ({
                let outcome = timers_evaluated(
                    old(self)@.timers,
                    old(self)@.sints,
                    ref_time_now,
                    NUM_TIMERS as nat,
                );
                &&& final(self)@ == (ProcessorModel {
                    sints: outcome.sints,
                    timers: outcome.timers,
                    vina: old(self)@.vina,
                })
                &&& final(interrupt).requests() == old(interrupt).requests() + outcome.requests
                &&& next_ref_time == outcome.next
            }),
            final(self).handle() == old(self).handle(),
    {
        let ghost timers = self@.timers;
        let ghost sints = self@.sints;
        let mut next_ref_time: Option<u64> = None;
        assert(interrupt.requests() + Seq::<InterruptRequest>::empty() =~= interrupt.requests());
        if !self.timers_are_busy() {
            proof {
                lemma_idle_timers(timers, sints, ref_time_now, NUM_TIMERS as nat);
            }
            return None;
        }
        let mut n: usize = 0;
        while n < NUM_TIMERS
            invariant
                n <= NUM_TIMERS,
                timers.len() == NUM_TIMERS,
                self.handle() == old(self).handle(),
                self@.vina == old(self)@.vina,
                self@.timers == timers_evaluated(timers, sints, ref_time_now, n as nat).timers,
                self@.sints == timers_evaluated(timers, sints, ref_time_now, n as nat).sints,
                interrupt.requests() == old(interrupt).requests() + timers_evaluated(
                    timers,
                    sints,
                    ref_time_now,
                    n as nat,
                ).requests,
                next_ref_time == timers_evaluated(timers, sints, ref_time_now, n as nat).next,
                forall|i: int| n <= i < NUM_TIMERS ==> self@.timers[i] == timers[i],
            decreases NUM_TIMERS - n,
        {
            let mut timer = self.timers[n];
            let next = timer.evaluate(n as u32, &mut self.sints, ref_time_now, interrupt);
            self.timers[n] = timer;
            if let Some(time) = next {
                next_ref_time = match next_ref_time {
                    Some(v) => Some(
                        if v <= time {
                            v
                        } else {
                            time
                        },
                    ),
                    None => Some(time),
                };
            }
            assert(interrupt.requests() =~= old(interrupt).requests() + timers_evaluated(
                timers,
                sints,
                ref_time_now,
                (n + 1) as nat,
            ).requests);
            n += 1;
        }
        next_ref_time
    }

    /// Scans for pending messages and timers.
    ///
    /// Calls `interrupt` with the APIC vector to signal, possibly multiple
    /// times for different SINTs.
    ///
    /// Returns SINTs that are now deliverable after calls to
    /// [`Self::request_sint_readiness`], and the time at which the next timer
    /// is due.
    #[must_use]
    pub fn scan<I: RequestInterrupt + ?Sized>(
        &mut self,
        ref_time_now: u64,
        interrupt: &mut I,
    ) -> (found: (u16, Option<u64>))
        ensures
            found.0 == old(self)@.scan_ready(ref_time_now),
            found.1 == old(self)@.scanned_timers(ref_time_now).next,
            final(self)@ == old(self)@.scanned(ref_time_now),
            final(self).handle() == old(self).handle(),
            final(interrupt).requests() == old(interrupt).requests()
                + old(self)@.scanned_timers(ref_time_now).requests,
    {
        // Evaluate `ready_sints` for each pending SINT.
        self.sints.check_pending_sints();
        // Scan for due timers.
        let next_ref_time = self.evaluate_timers(ref_time_now, interrupt);
        let ready_pending_sints: u16 = self.sints.ready_sints & self.sints.pending_sints;
        self.sints.pending_sints = self.sints.pending_sints & !ready_pending_sints;
        (ready_pending_sints, next_ref_time)
    }

    /// Returns the message page, as the guest sees it.
    pub fn message_page(&self) -> (page: &OverlayPage)
        ensures
            page@ == self@.sints.simp_page,
    {
        &self.sints.simp_page
    }

    /// Writes to the message page, as the guest does.
    pub fn write_message_page(&mut self, offset: usize, data: &[u8])
        requires
            offset + data@.len() <= HV_PAGE_SIZE_USIZE,
        ensures
            final(self)@ == old(self)@.with_sints(
                (SintModel {
                    simp_page: old(self)@.sints.simp_page.written(offset as int, data@),
                    ..old(self)@.sints
                }),
            ),
            final(self).handle() == old(self).handle(),
    {
        self.sints.simp_page.write(offset, data);
    }
}

/// Idle timers do nothing.
proof fn lemma_idle_timers(timers: Seq<Timer>, sints: SintModel, now: u64, count: nat)
    requires
        count <= timers.len(),
        forall|i: int| 0 <= i < count ==> #[trigger] timers[i].is_idle(),
    ensures
        timers_evaluated(timers, sints, now, count) == (TimersOutcome {
            timers,
            sints,
            requests: seq![],
            next: None,
        }),
    decreases count,
{
    if count > 0 {
        lemma_idle_timers(timers, sints, now, (count - 1) as nat);
        assert(timers[count - 1].is_idle());
        assert(timers_evaluated(timers, sints, now, count) =~= (TimersOutcome {
            timers,
            sints,
            requests: seq![],
            next: None,
        }));
    }
}

} // verus!
