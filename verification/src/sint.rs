//! The interrupt sources of a virtual processor and the message page that they
//! deliver through.

use crate::access::InterruptRequest;
use crate::access::OverlayRequest;
use crate::access::RequestInterrupt;
use crate::access::VtlProtectAccess;
use crate::message::lemma_header_read_back;
use crate::message::HvMessage;
use crate::message::HvMessageHeader;
use crate::message::HV_MESSAGE_HEADER_SIZE;
use crate::message::HV_MESSAGE_SIZE;
use crate::message::HV_MESSAGE_TYPE_NONE;
use crate::overlay::OverlayPage;
use crate::overlay::PageModel;
use crate::overlay::HV_PAGE_SIZE_USIZE;
use crate::registers::has_sint;
use crate::registers::lemma_has_sint;
use crate::registers::HvError;
use crate::registers::HvSynicScontrol;
use crate::registers::HvSynicSimpSiefp;
use crate::registers::HvSynicSint;
use crate::registers::MsrError;
use crate::registers::NUM_SINTS;
use crate::shared::sint_interrupt;
use crate::shared::sint_requests;
use crate::shared::SharedProcessorState;
use crate::shared::StateModel;
use crate::shared::MASKED_SINT_BITS;
use vstd::prelude::*;

verus! {

/// Writing `new` over `old` in a page register asks for the page to be moved.
pub open spec fn page_moves(old: HvSynicSimpSiefp, new: HvSynicSimpSiefp) -> bool {
    new.enabled() && (!old.enabled() || new.base_gpn() != old.base_gpn())
}

/// The page after `new` was written over `old` in its register. A page that is
/// to be moved goes by the `reply` to that request; one whose register is
/// disabled is taken away; any other stays where it is.
pub open spec fn page_after_write(
    page: PageModel,
    old: HvSynicSimpSiefp,
    new: HvSynicSimpSiefp,
    reply: Result<(), HvError>,
) -> PageModel {
    if page_moves(old, new) {
        page.remapped(new.base_gpn(), reply)
    } else if !new.enabled() {
        page.unmapped()
    } else {
        page
    }
}

/// The requests that the write makes.
pub open spec fn page_write_requests(
    page: PageModel,
    old: HvSynicSimpSiefp,
    new: HvSynicSimpSiefp,
    reply: Result<(), HvError>,
) -> Seq<OverlayRequest> {
    if page_moves(old, new) {
        page.remap_requests(new.base_gpn(), reply)
    } else if !new.enabled() {
        page.unlock_requests()
    } else {
        seq![]
    }
}

/// The register after the write: a refused move leaves it as it was.
pub open spec fn page_register_after_write(
    old: HvSynicSimpSiefp,
    new: HvSynicSimpSiefp,
    reply: Result<(), HvError>,
) -> HvSynicSimpSiefp {
    if page_moves(old, new) && reply is Err {
        old
    } else {
        new
    }
}

/// The result of the write.
pub open spec fn page_write_result(
    old: HvSynicSimpSiefp,
    new: HvSynicSimpSiefp,
    reply: Result<(), HvError>,
) -> Result<(), MsrError> {
    if page_moves(old, new) && reply is Err {
        Err(MsrError::InvalidAccess)
    } else {
        Ok(())
    }
}

/// Moves or takes away a page as the write of `new` over `old` in its register
/// asks. Returns the reply to the request to move it, or `Ok` where there was
/// none.
fn apply_page_write<P: VtlProtectAccess + ?Sized>(
    page: &mut OverlayPage,
    old_register: HvSynicSimpSiefp,
    new_register: HvSynicSimpSiefp,
    prot_access: &mut P,
) -> (reply: Result<(), HvError>)
    ensures
        !page_moves(old_register, new_register) ==> reply is Ok,
        final(page)@ == page_after_write(old(page)@, old_register, new_register, reply),
        final(prot_access).overlay_requests() == old(prot_access).overlay_requests()
            + page_write_requests(old(page)@, old_register, new_register, reply),
{
    assert(prot_access.overlay_requests() + Seq::<OverlayRequest>::empty()
        =~= prot_access.overlay_requests());
    if new_register.enabled() && (!old_register.enabled() || new_register.base_gpn()
        != old_register.base_gpn()) {
        return page.remap(new_register.base_gpn(), prot_access);
    } else if !new_register.enabled() {
        page.unmap(prot_access);
    }
    Ok(())
}

/// The registers, the message page and the bookkeeping of the sources.
#[verifier::ext_equal]
pub struct SintModel {
    pub siefp: HvSynicSimpSiefp,
    pub simp: HvSynicSimpSiefp,
    pub simp_page: PageModel,
    pub scontrol: HvSynicScontrol,
    pub sint: Seq<HvSynicSint>,
    /// The sources for which a free slot was asked for.
    pub pending_sints: u16,
    /// The sources whose slot was found free and not used since.
    pub ready_sints: u16,
}

impl SintModel {
    /// The state after a reset.
    pub open spec fn fresh() -> Self {
        SintModel {
            siefp: HvSynicSimpSiefp { bits: 0 },
            simp: HvSynicSimpSiefp { bits: 0 },
            simp_page: PageModel::fresh(),
            scontrol: HvSynicScontrol { bits: 1 },
            sint: Seq::new(NUM_SINTS as nat, |i: int| HvSynicSint { bits: MASKED_SINT_BITS }),
            pending_sints: 0,
            ready_sints: 0,
        }
    }

    /// The page is whole and there is a register for each source.
    pub open spec fn wf(self) -> bool {
        &&& self.simp_page.contents.len() == HV_PAGE_SIZE_USIZE
        &&& self.sint.len() == NUM_SINTS
    }

    /// Where the slot of a source begins in the message page.
    pub open spec fn slot_offset(sint_index: u8) -> int {
        sint_index * HV_MESSAGE_SIZE
    }

    /// The slot of a source.
    pub open spec fn slot(self, sint_index: u8) -> Seq<u8> {
        self.simp_page.contents.subrange(
            Self::slot_offset(sint_index),
            Self::slot_offset(sint_index) + HV_MESSAGE_SIZE,
        )
    }

    /// The header of the message in the slot of a source.
    pub open spec fn slot_header(self, sint_index: u8) -> HvMessageHeader {
        HvMessageHeader::parsed(self.slot(sint_index))
    }

    /// No message is in the slot of the source.
    pub open spec fn slot_is_free(self, sint_index: u8) -> bool {
        self.slot_header(sint_index).typ == HV_MESSAGE_TYPE_NONE
    }

    /// Messages may be delivered through the source.
    pub open spec fn takes_messages(self, sint_index: u8) -> bool {
        !self.sint[sint_index as int].masked() && !self.sint[sint_index as int].proxy()
    }

    /// One of the sources in the mask is proxied.
    pub open spec fn any_proxied(self, sints: u16) -> bool {
        exists|sint_index: u8|
            sint_index < NUM_SINTS && #[trigger] has_sint(sints, sint_index)
                && self.sint[sint_index as int].proxy()
    }

    pub open spec fn is_ready(self, sint_index: u8) -> bool {
        has_sint(self.ready_sints, sint_index)
    }

    pub open spec fn is_pending(self, sint_index: u8) -> bool {
        has_sint(self.pending_sints, sint_index)
    }

    /// The source is ready once its slot was looked at.
    pub open spec fn found_ready(self, sint_index: u8) -> bool {
        self.is_ready(sint_index) || self.slot_is_free(sint_index)
    }

    /// The state after a look at the slot of a source. A free slot makes the
    /// source ready; in a full one the message is flagged, so that the guest
    /// signals its end.
    pub open spec fn checked(self, sint_index: u8) -> Self {
        if self.is_ready(sint_index) {
            self
        } else if self.slot_is_free(sint_index) {
            SintModel { ready_sints: self.ready_sints | (1u16 << sint_index), ..self }
        } else {
            SintModel {
                simp_page: self.simp_page.written(
                    Self::slot_offset(sint_index),
                    self.slot_header(sint_index).with_message_pending().bytes(),
                ),
                ..self
            }
        }
    }

    /// The state after the bytes of a message were put in the slot of a source.
    pub open spec fn posted(self, sint_index: u8, message: Seq<u8>) -> Self {
        SintModel {
            simp_page: self.simp_page.written(Self::slot_offset(sint_index), message),
            ready_sints: self.ready_sints & !(1u16 << sint_index),
            ..self
        }
    }

    /// The result of a request to post a message to a source.
    pub open spec fn post_result(self, sint_index: u8) -> Result<(), HvError> {
        if !self.takes_messages(sint_index) {
            Err(HvError::InvalidSynicState)
        } else if !self.is_ready(sint_index) {
            Err(HvError::ObjectInUse)
        } else {
            Ok(())
        }
    }

    /// The state after the request.
    pub open spec fn after_post(self, sint_index: u8, message: Seq<u8>) -> Self {
        if self.post_result(sint_index) is Ok {
            self.posted(sint_index, message)
        } else {
            self
        }
    }

    /// The interrupts that the request asks for.
    pub open spec fn post_requests(self, sint_index: u8) -> Seq<InterruptRequest> {
        if self.post_result(sint_index) is Ok {
            sint_requests(self.sint[sint_index as int])
        } else {
            seq![]
        }
    }

    /// The state after looks at the slots of the pending ones among the first
    /// `count` sources.
    pub open spec fn pending_checked(self, count: nat) -> Self
        decreases count,
    {
        if count == 0 {
            self
        } else {
            let sint_index = (count - 1) as u8;
            let before = self.pending_checked((count - 1) as nat);
            if self.is_pending(sint_index) {
                before.checked(sint_index)
            } else {
                before
            }
        }
    }

    /// The state after a write of `SIEFP` that went by `reply`.
    pub open spec fn with_siefp(self, v: u64, reply: Result<(), HvError>) -> Self {
        SintModel {
            siefp: page_register_after_write(self.siefp, HvSynicSimpSiefp { bits: v }, reply),
            ..self
        }
    }

    /// The state after a write of `SIMP` that went by `reply`.
    pub open spec fn with_simp(self, v: u64, reply: Result<(), HvError>) -> Self {
        let new = HvSynicSimpSiefp { bits: v };
        SintModel {
            simp: page_register_after_write(self.simp, new, reply),
            simp_page: page_after_write(self.simp_page, self.simp, new, reply),
            ..self
        }
    }

    /// The state after a write of `SCONTROL`.
    pub open spec fn with_scontrol(self, v: u64) -> Self {
        SintModel { scontrol: HvSynicScontrol { bits: v }, ..self }
    }

    /// The state after a write of a `SINT` register.
    pub open spec fn with_sint(self, n: int, v: u64) -> Self {
        SintModel { sint: self.sint.update(n, HvSynicSint { bits: v }), ..self }
    }
}

impl StateModel {
    /// The shared state after a write of `SCONTROL`.
    pub open spec fn with_scontrol(self, v: u64) -> Self {
        StateModel { enabled: HvSynicScontrol { bits: v }.enabled(), ..self }
    }

    /// The shared state after a write of a `SINT` register.
    pub open spec fn with_sint(self, n: int, v: u64) -> Self {
        StateModel { sint: self.sint.update(n, HvSynicSint { bits: v }), ..self }
    }
}

/// The state of a virtual processor's sources.
pub struct SintState {
    pub siefp: HvSynicSimpSiefp,
    pub simp: HvSynicSimpSiefp,
    pub simp_page: OverlayPage,
    pub scontrol: HvSynicScontrol,
    pub sint: [HvSynicSint; NUM_SINTS],
    pub pending_sints: u16,
    pub ready_sints: u16,
}

impl View for SintState {
    type V = SintModel;

    open spec fn view(&self) -> SintModel {
        SintModel {
            siefp: self.siefp,
            simp: self.simp,
            simp_page: self.simp_page@,
            scontrol: self.scontrol,
            sint: self.sint@,
            pending_sints: self.pending_sints,
            ready_sints: self.ready_sints,
        }
    }
}

impl Default for SintState {
    fn default() -> (sints: Self)
        ensures
            sints@ == SintModel::fresh(),
    {
        let sints = SintState {
            siefp: HvSynicSimpSiefp { bits: 0 },
            simp: HvSynicSimpSiefp { bits: 0 },
            simp_page: OverlayPage::default(),
            scontrol: HvSynicScontrol { bits: 1 },
            sint: [HvSynicSint { bits: MASKED_SINT_BITS };NUM_SINTS],
            pending_sints: 0,
            ready_sints: 0,
        };
        assert(sints@ =~= SintModel::fresh());
        sints
    }
}

impl SintState {
    /// Puts a message in the slot of a source that is ready for it, and asks
    /// for the interrupt.
    pub fn post_message<I: RequestInterrupt + ?Sized>(
        &mut self,
        sint_index: u8,
        message: &HvMessage,
        interrupt: &mut I,
    )
        requires
            sint_index < NUM_SINTS,
            old(self)@.takes_messages(sint_index),
            old(self)@.is_ready(sint_index),
        ensures
            final(self)@ == old(self)@.posted(sint_index, message.bytes()),
            final(interrupt).requests() == old(interrupt).requests() + sint_requests(
                old(self)@.sint[sint_index as int],
            ),
    {
        let sint = self.sint[sint_index as usize];
        let offset: usize = sint_index as usize * HV_MESSAGE_SIZE;
        let data: Vec<u8> = message.as_bytes();
        self.simp_page.write(offset, data.as_slice());
        self.ready_sints = self.ready_sints & !(1u16 << sint_index);
        sint_interrupt(interrupt, sint);
    }

    /// Returns whether a message can be put in the slot of a source, after a
    /// look at the slot if need be.
    pub fn check_sint_ready(&mut self, sint: u8) -> (ready: bool)
        requires
            sint < NUM_SINTS,
        ensures
            ready == old(self)@.found_ready(sint),
            final(self)@ == old(self)@.checked(sint),
    {
        if self.ready_sints & (1u16 << sint) != 0 {
            return true;
        }
        let offset: usize = sint as usize * HV_MESSAGE_SIZE;
        let bytes: Vec<u8> = self.simp_page.read(offset, HV_MESSAGE_HEADER_SIZE);
        let header = HvMessageHeader::read_from(bytes.as_slice());
        proof {
            let slot = self@.slot(sint);
            assert(forall|i: int| 0 <= i < HV_MESSAGE_HEADER_SIZE ==> bytes@[i] == slot[i]);
            assert(forall|i: int| 0 <= i < 2 ==> bytes@.skip(6)[i] == slot.skip(6)[i]);
            assert(forall|i: int| 0 <= i < 8 ==> bytes@.skip(8)[i] == slot.skip(8)[i]);
            assert(header == self@.slot_header(sint));
        }
        if header.typ != HV_MESSAGE_TYPE_NONE {
            // The slot is full. Mark the message pending so that the guest forces an EOM.
            if !header.message_pending() {
                let data: Vec<u8> = header.with_message_pending().as_bytes();
                self.simp_page.write(offset, data.as_slice());
            } else {
                proof {
                    let flags = header.flags;
                    assert(flags | 1 == flags) by (bit_vector)
                        requires
                            flags & 1 != 0,
                    ;
                    assert(header.with_message_pending() == header);
                    lemma_header_read_back(bytes@);
                    assert(self@ =~= old(self)@.checked(sint));
                }
            }
            return false;
        }
        self.ready_sints = self.ready_sints | (1u16 << sint);
        true
    }

    /// Looks at the slot of each pending source.
    pub fn check_pending_sints(&mut self)
        ensures
            final(self)@ == old(self)@.pending_checked(NUM_SINTS as nat),
    {
        let ghost before = self@;
        if self.pending_sints == 0 {
            proof {
                lemma_nothing_pending(before, NUM_SINTS as nat);
            }
            return;
        }
        let mut sint: u8 = 0;
        while (sint as usize) < NUM_SINTS
            invariant
                sint <= NUM_SINTS,
                self@ == before.pending_checked(sint as nat),
                self@.pending_sints == before.pending_sints,
            decreases NUM_SINTS - sint,
        {
            if self.pending_sints & (1u16 << sint) != 0 {
                self.check_sint_ready(sint);
            }
            sint += 1;
        }
    }

    /// Sets the event flags page register.
    pub fn set_siefp<P: VtlProtectAccess + ?Sized>(
        &mut self,
        siefp_page: &mut OverlayPage,
        v: u64,
        prot_access: &mut P,
    ) -> (result: Result<(), MsrError>)
        ensures
            exists|reply: Result<(), HvError>|
                {
                    &&& result == page_write_result(
                        old(self)@.siefp,
                        HvSynicSimpSiefp { bits: v },
                        reply,
                    )
                    &&& final(self)@ == #[trigger] old(self)@.with_siefp(v, reply)
                    &&& final(siefp_page)@ == page_after_write(
                        old(siefp_page)@,
                        old(self)@.siefp,
                        HvSynicSimpSiefp { bits: v },
                        reply,
                    )
                    &&& final(prot_access).overlay_requests() == old(
                        prot_access,
                    ).overlay_requests() + page_write_requests(
                        old(siefp_page)@,
                        old(self)@.siefp,
                        HvSynicSimpSiefp { bits: v },
                        reply,
                    )
                },
    {
        let siefp = HvSynicSimpSiefp { bits: v };
        let reply = apply_page_write(siefp_page, self.siefp, siefp, prot_access);
        if reply.is_ok() {
            self.siefp = siefp;
        }
        assert(self@ == old(self)@.with_siefp(v, reply));
        match reply {
            Ok(_) => Ok(()),
            Err(_) => Err(MsrError::InvalidAccess),
        }
    }

    /// Sets the message page register.
    pub fn set_simp<P: VtlProtectAccess + ?Sized>(
        &mut self,
        v: u64,
        prot_access: &mut P,
    ) -> (result: Result<(), MsrError>)
        ensures
            exists|reply: Result<(), HvError>|
                {
                    &&& result == page_write_result(
                        old(self)@.simp,
                        HvSynicSimpSiefp { bits: v },
                        reply,
                    )
                    &&& final(self)@ == #[trigger] old(self)@.with_simp(v, reply)
                    &&& final(prot_access).overlay_requests() == old(
                        prot_access,
                    ).overlay_requests() + page_write_requests(
                        old(self)@.simp_page,
                        old(self)@.simp,
                        HvSynicSimpSiefp { bits: v },
                        reply,
                    )
                },
    {
        let simp = HvSynicSimpSiefp { bits: v };
        let reply = apply_page_write(&mut self.simp_page, self.simp, simp, prot_access);
        if reply.is_ok() {
            self.simp = simp;
        }
        assert(self@ == old(self)@.with_simp(v, reply));
        match reply {
            Ok(_) => Ok(()),
            Err(_) => Err(MsrError::InvalidAccess),
        }
    }

    /// Sets the `SCONTROL` register.
    pub fn set_scontrol(&mut self, shared: &mut SharedProcessorState, v: u64)
        ensures
            final(self)@ == old(self)@.with_scontrol(v),
            final(shared)@ == old(shared)@.with_scontrol(v),
    {
        self.scontrol = HvSynicScontrol { bits: v };
        shared.enabled = self.scontrol.enabled();
    }

    /// Sets the specified `SINT` register.
    pub fn set_sint(&mut self, shared: &mut SharedProcessorState, n: usize, v: u64)
        requires
            n < NUM_SINTS,
        ensures
            final(self)@ == old(self)@.with_sint(n as int, v),
            final(shared)@ == old(shared)@.with_sint(n as int, v),
    {
        let sint = HvSynicSint { bits: v };
        self.sint[n] = sint;
        shared.sint[n] = sint;
    }
}

/// Where no source is asked for, none is looked at.
proof fn lemma_nothing_pending(sints: SintModel, count: nat)
    requires
        sints.pending_sints == 0,
        count <= NUM_SINTS,
    ensures
        sints.pending_checked(count) == sints,
    decreases count,
{
    if count > 0 {
        lemma_nothing_pending(sints, (count - 1) as nat);
        lemma_has_sint(0, 0, (count - 1) as u8, 0);
    }
}

} // verus!
