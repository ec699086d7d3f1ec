//! The part of a virtual processor's state that other processors signal
//! events through.

use crate::access::InterruptRequest;
use crate::access::RequestInterrupt;
use crate::overlay::OverlayPage;
use crate::overlay::PageModel;
use crate::overlay::HV_PAGE_SIZE_USIZE;
use crate::registers::HvSynicSint;
use crate::registers::NUM_SINTS;
use vstd::prelude::*;

verus! {

/// A source as it is after a reset: masked.
pub const MASKED_SINT_BITS: u64 = 0x1_0000;

/// Error returned when trying to wait for readiness or signal events to a
/// proxied SINT.
#[derive(Clone, Copy, Debug, PartialEq, Eq, Structural)]
pub struct SintProxied;

/// The interrupts that a delivery through `sint` asks for.
pub open spec fn sint_requests(sint: HvSynicSint) -> Seq<InterruptRequest> {
    if sint.polling() {
        seq![]
    } else {
        seq![InterruptRequest { vector: sint.vector() as u32, auto_eoi: sint.auto_eoi() }]
    }
}

/// Asks for the interrupt of a source through which something was delivered.
pub fn sint_interrupt<I: RequestInterrupt + ?Sized>(request: &mut I, sint: HvSynicSint)
    requires
        !sint.masked(),
        !sint.proxy(),
    ensures
        final(request).requests() == old(request).requests() + sint_requests(sint),
{
    if !sint.polling() {
        request.request_interrupt(sint.vector() as u32, sint.auto_eoi());
    }
    assert(request.requests() =~= old(request).requests() + sint_requests(sint));
}

/// The byte of the event flags page that holds `flag` of the source.
pub open spec fn flag_offset(sint_index: u8, flag: u16) -> int {
    sint_index * (HV_PAGE_SIZE_USIZE / NUM_SINTS) + flag / 8
}

/// Returns the byte of the event flags page that holds `flag` of the source.
pub(crate) fn flag_byte_offset(sint_index: u8, flag: u16) -> (offset: usize)
    requires
        sint_index < NUM_SINTS,
    ensures
        offset == flag_offset(sint_index, flag),
{
    let part: usize = HV_PAGE_SIZE_USIZE / NUM_SINTS;
    assert(part == 256);
    sint_index as usize * part + flag as usize / 8
}

/// The bit of that byte.
pub open spec fn flag_mask(flag: u16) -> u8 {
    1u8 << (flag % 8)
}

/// The part of a virtual processor's state that others go by when they signal
/// an event.
#[verifier::ext_equal]
pub struct StateModel {
    /// The virtual processor whose state it is.
    pub index: u32,
    pub online: bool,
    pub enabled: bool,
    pub sint: Seq<HvSynicSint>,
}

impl StateModel {
    /// The state of a processor that was not added yet.
    pub open spec fn offline(index: u32) -> Self {
        StateModel {
            index,
            online: false,
            enabled: false,
            sint: Seq::new(NUM_SINTS as nat, |i: int| HvSynicSint { bits: 0 }),
        }
    }

    /// The state of a processor after a reset.
    pub open spec fn at_reset(index: u32) -> Self {
        StateModel {
            index,
            online: true,
            enabled: true,
            sint: Seq::new(NUM_SINTS as nat, |i: int| HvSynicSint { bits: MASKED_SINT_BITS }),
        }
    }

    /// The state after the processor was added. One that is there already is
    /// left alone.
    pub open spec fn after_add(self) -> Self {
        if self.online {
            self
        } else {
            StateModel::at_reset(self.index)
        }
    }

    /// Events are taken through the source.
    pub open spec fn takes_events(self, sint_index: u8) -> bool {
        &&& self.enabled
        &&& !self.sint[sint_index as int].masked()
        &&& !self.sint[sint_index as int].proxy()
    }
}

/// What a virtual processor shares with others: its state and its event flags
/// page.
#[verifier::ext_equal]
pub struct SharedModel {
    pub state: StateModel,
    pub siefp_page: PageModel,
}

impl SharedModel {
    /// What is shared after a reset.
    pub open spec fn at_reset(index: u32) -> Self {
        SharedModel { state: StateModel::at_reset(index), siefp_page: PageModel::fresh() }
    }

    /// Events are taken through the source.
    pub open spec fn takes_events(self, sint_index: u8) -> bool {
        self.state.takes_events(sint_index)
    }

    /// What is shared after the processor was added. One that is there already is
    /// left alone, with its page.
    pub open spec fn after_add(self) -> Self {
        if self.state.online {
            self
        } else {
            SharedModel::at_reset(self.state.index)
        }
    }

    pub open spec fn flag_is_set(self, sint_index: u8, flag: u16) -> bool {
        page_flag_is_set(self.siefp_page, sint_index, flag)
    }

    /// The reply to an event.
    pub open spec fn event_reply(self, sint_index: u8, flag: u16) -> Result<bool, SintProxied> {
        if self.state.sint[sint_index as int].proxy() {
            Err(SintProxied)
        } else {
            Ok(self.takes_events(sint_index) && !self.flag_is_set(sint_index, flag))
        }
    }

    /// What is shared after an event.
    pub open spec fn after_event(self, sint_index: u8, flag: u16) -> Self {
        if self.takes_events(sint_index) {
            SharedModel { siefp_page: page_flagged(self.siefp_page, sint_index, flag), ..self }
        } else {
            self
        }
    }

    /// The interrupts that an event asks for.
    pub open spec fn event_requests(self, sint_index: u8, flag: u16) -> Seq<InterruptRequest> {
        if self.event_reply(sint_index, flag) == Ok::<bool, SintProxied>(true) {
            sint_requests(self.state.sint[sint_index as int])
        } else {
            seq![]
        }
    }

    /// What is shared after `data` was written to the event flags page.
    pub open spec fn with_event_page_write(self, offset: int, data: Seq<u8>) -> Self {
        SharedModel { siefp_page: self.siefp_page.written(offset, data), ..self }
    }
}

/// A flag is set in an event flags page.
pub open spec fn page_flag_is_set(page: PageModel, sint_index: u8, flag: u16) -> bool {
    page.contents[flag_offset(sint_index, flag)] & flag_mask(flag) != 0
}

/// An event flags page with one flag set.
pub open spec fn page_flagged(page: PageModel, sint_index: u8, flag: u16) -> PageModel {
    let offset = flag_offset(sint_index, flag);
    page.written(offset, seq![page.contents[offset] | flag_mask(flag)])
}

/// The part of a virtual processor's state that others go by when they signal
/// an event.
pub struct SharedProcessorState {
    pub index: u32,
    pub online: bool,
    pub enabled: bool,
    pub sint: [HvSynicSint; NUM_SINTS],
}

impl View for SharedProcessorState {
    type V = StateModel;

    open spec fn view(&self) -> StateModel {
        StateModel {
            index: self.index,
            online: self.online,
            enabled: self.enabled,
            sint: self.sint@,
        }
    }
}

impl SharedProcessorState {
    pub fn new(index: u32) -> (state: Self)
        ensures
            state@ == StateModel::offline(index),
    {
        let state = SharedProcessorState {
            index,
            online: false,
            enabled: false,
            sint: [HvSynicSint { bits: 0 };NUM_SINTS],
        };
        assert(state@ =~= StateModel::offline(index));
        state
    }

    pub fn at_reset(index: u32) -> (state: Self)
        ensures
            state@ == StateModel::at_reset(index),
    {
        let state = SharedProcessorState {
            index,
            online: true,
            enabled: true,
            sint: [HvSynicSint { bits: MASKED_SINT_BITS };NUM_SINTS],
        };
        assert(state@ =~= StateModel::at_reset(index));
        state
    }

    /// Resets a processor that is not online yet, which puts it online.
    /// Returns whether that was so.
    pub fn bring_online(&mut self) -> (added: bool)
        ensures
            added == !old(self)@.online,
            final(self)@ == old(self)@.after_add(),
    {
        if self.online {
            return false;
        }
        *self = SharedProcessorState::at_reset(self.index);
        true
    }

    /// Returns whether events are taken through the source.
    pub fn takes_events(&self, sint_index: u8) -> (takes: Result<bool, SintProxied>)
        requires
            sint_index < NUM_SINTS,
        ensures
            takes == (if self@.sint[sint_index as int].proxy() {
                Err(SintProxied)
            } else {
                Ok(self@.takes_events(sint_index))
            }),
    {
        let sint = self.sint[sint_index as usize];
        if sint.proxy() {
            return Err(SintProxied);
        }
        Ok(self.enabled && !sint.masked())
    }
}

/// What an event flags page holds, and whose it is.
#[verifier::ext_equal]
pub struct EventPageModel {
    /// The virtual processor whose page it is.
    pub index: u32,
    pub page: PageModel,
}

/// The event flags page of a virtual processor.
pub struct EventPage {
    pub index: u32,
    pub page: OverlayPage,
}

impl View for EventPage {
    type V = EventPageModel;

    open spec fn view(&self) -> EventPageModel {
        EventPageModel { index: self.index, page: self.page@ }
    }
}

impl EventPage {
    pub fn new(index: u32) -> (page: Self)
        ensures
            page@ == (EventPageModel { index, page: PageModel::fresh() }),
    {
        EventPage { index, page: OverlayPage::default() }
    }

    /// Sets an event flag. Returns `true` if it was not set before.
    pub fn set_flag(&mut self, sint_index: u8, flag: u16) -> (newly: bool)
        requires
            sint_index < NUM_SINTS,
            flag_offset(sint_index, flag) < HV_PAGE_SIZE_USIZE,
        ensures
            newly == !page_flag_is_set(old(self)@.page, sint_index, flag),
            final(self)@ == (EventPageModel {
                page: page_flagged(old(self)@.page, sint_index, flag),
                ..old(self)@
            }),
    {
        let byte_offset: usize = flag_byte_offset(sint_index, flag);
        let mask: u8 = 1u8 << (flag % 8);
        self.page.fetch_or(byte_offset, mask) & mask == 0
    }
}

/// Adds the processor with the given state and event flags page, if it was not
/// added before. Returns whether that was so.
pub fn add_processor(state: &mut SharedProcessorState, page: &mut EventPage) -> (added: bool)
    ensures
        ({
            let shared = SharedModel { state: old(state)@, siefp_page: old(page)@.page };
            &&& added == !shared.state.online
            &&& final(state)@ == shared.after_add().state
            &&& final(page)@ == (EventPageModel {
                page: shared.after_add().siefp_page,
                ..old(page)@
            })
        }),
{
    let added = state.bring_online();
    if added {
        page.page = OverlayPage::default();
    }
    added
}

/// Signals an event to the processor with the given state and event flags page.
///
/// Returns `true` if the event flag is newly signaled. An event that is refused
/// leaves the page alone.
pub fn deliver_event<I: RequestInterrupt + ?Sized>(
    state: &SharedProcessorState,
    page: &mut EventPage,
    sint_index: u8,
    flag: u16,
    interrupt: &mut I,
) -> (reply: Result<bool, SintProxied>)
    requires
        sint_index < NUM_SINTS,
        state@.takes_events(sint_index) ==> flag_offset(sint_index, flag) < HV_PAGE_SIZE_USIZE,
    ensures
        ({
            let shared = SharedModel { state: state@, siefp_page: old(page)@.page };
            &&& reply == shared.event_reply(sint_index, flag)
            &&& final(page)@ == (EventPageModel {
                page: shared.after_event(sint_index, flag).siefp_page,
                ..old(page)@
            })
            &&& final(interrupt).requests() == old(interrupt).requests() + shared.event_requests(
                sint_index,
                flag,
            )
        }),
{
    assert(interrupt.requests() + Seq::<InterruptRequest>::empty() =~= interrupt.requests());
    if !state.takes_events(sint_index)? {
        return Ok(false);
    }
    let newly = page.set_flag(sint_index, flag);
    if newly {
        sint_interrupt(interrupt, state.sint[sint_index as usize]);
    }
    Ok(newly)
}

/// Asks for interrupts that waited, in order.
pub(crate) fn raise_interrupts<I: RequestInterrupt + ?Sized>(
    waiting: &Vec<InterruptRequest>,
    interrupt: &mut I,
)
    ensures
        final(interrupt).requests() == old(interrupt).requests() + waiting@,
{
    let mut n: usize = 0;
    while n < waiting.len()
        invariant
            n <= waiting.len(),
            interrupt.requests() == old(interrupt).requests() + waiting@.take(n as int),
        decreases waiting.len() - n,
    {
        let request = waiting[n];
        interrupt.request_interrupt(request.vector, request.auto_eoi);
        n += 1;
        assert(waiting@.take(n as int) =~= waiting@.take(n - 1).push(request));
    }
    assert(waiting@.take(n as int) =~= waiting@);
}

} // verus!
