//! The controller of a whole partition.

use crate::access::InterruptRequest;
use crate::access::RequestInterrupt;
use crate::lock::made_with_page;
use crate::lock::made_with_state;
use crate::lock::page_hold;
use crate::lock::page_moved;
use crate::lock::page_mut;
use crate::lock::page_released;
use crate::lock::read_hold;
use crate::lock::release_page;
use crate::lock::release_state;
use crate::lock::state_hold;
use crate::lock::state_moved;
use crate::lock::state_mut;
use crate::lock::state_read;
use crate::lock::state_ref;
use crate::lock::state_released;
use crate::lock::SharedHandle;
use crate::lock::SharedLocks;
use crate::model::ProcessorModel;
use crate::overlay::OverlayPage;
use crate::overlay::PageModel;
use crate::overlay::HV_PAGE_SIZE_USIZE;
use crate::processor::ProcessorSynic;
use crate::registers::VpIndex;
use crate::registers::NUM_SINTS;
use crate::shared::add_processor;
use crate::shared::deliver_event;
use crate::shared::flag_byte_offset;
use crate::shared::flag_offset;
use crate::shared::raise_interrupts;
use crate::shared::EventPageModel;
use crate::shared::SharedModel;
use crate::shared::SintProxied;
use crate::shared::StateModel;
use std::sync::Arc;
use vstd::prelude::*;

verus! {

/// Each virtual processor has locks of its own.
pub open spec fn separate(locks: Seq<SharedLocks>) -> bool {
    forall|i: int, j: int|
        0 <= i < j < locks.len() ==> (#[trigger] locks[i]).state != (#[trigger] locks[j]).state
            && locks[i].event_page != locks[j].event_page
}

/// The locks were made for the virtual processors in their order.
spec fn made_in_order(locks: Seq<SharedLocks>) -> bool {
    forall|i: int|
        0 <= i < locks.len() ==> made_with_state((#[trigger] locks[i]).state).index == i
            && made_with_page(locks[i].event_page).index == i
}

/// An event was signaled to the processor with the given locks, which found
/// `shared` there: the state was read, and the page left with the flag set if
/// the source takes the event, and else as it was.
pub open spec fn event_signaled(
    locks: SharedLocks,
    shared: SharedModel,
    sint_index: u8,
    flag: u16,
) -> bool {
    &&& state_read(locks.state, shared.state)
    &&& page_moved(
        locks.event_page,
        shared.siefp_page,
        shared.after_event(sint_index, flag).siefp_page,
    )
}

/// An event to the processor with the given locks was given up, which found
/// `shared` there: the state was read, and the page left as it was.
pub open spec fn event_given_up(locks: SharedLocks, shared: SharedModel) -> bool {
    &&& state_read(locks.state, shared.state)
    &&& page_moved(locks.event_page, shared.siefp_page, shared.siefp_page)
}

/// The processor with the given locks was added, if it was not there before,
/// which found `shared` there.
pub open spec fn processor_added(locks: SharedLocks, shared: SharedModel) -> bool {
    &&& state_moved(locks.state, shared.state, shared.after_add().state)
    &&& page_moved(locks.event_page, shared.siefp_page, shared.after_add().siefp_page)
}

/// A partition-wide synthetic interrupt controller.
pub struct GlobalSynic {
    vps: Vec<Arc<SharedLocks>>,
}

impl GlobalSynic {
    /// The locks around what the virtual processors share.
    pub closed spec fn locks(&self) -> Seq<SharedLocks> {
        Seq::new(self.vps@.len(), |i: int| *self.vps@[i])
    }

    #[verifier::type_invariant]
    spec fn inv(&self) -> bool {
        made_in_order(self.locks())
    }

    /// Returns a new instance of the synthetic interrupt controller.
    pub fn new(max_vp_count: u32) -> (synic: Self)
        ensures
            synic.locks().len() == max_vp_count,
            separate(synic.locks()),
            forall|i: int|
                #![trigger synic.locks()[i]]
                0 <= i < max_vp_count ==> {
                    &&& made_with_state(synic.locks()[i].state) == StateModel::offline(i as u32)
                    &&& made_with_page(synic.locks()[i].event_page) == (EventPageModel {
                        index: i as u32,
                        page: PageModel::fresh(),
                    })
                },
    {
        let mut vps: Vec<Arc<SharedLocks>> = Vec::new();
        let mut n: u32 = 0;
        while n < max_vp_count
            invariant
                n <= max_vp_count,
                vps@.len() == n,
                forall|i: int|
                    #![trigger vps@[i]]
                    0 <= i < n ==> {
                        &&& made_with_state(vps@[i].state) == StateModel::offline(i as u32)
                        &&& made_with_page(vps@[i].event_page) == (EventPageModel {
                            index: i as u32,
                            page: PageModel::fresh(),
                        })
                    },
            decreases max_vp_count - n,
        {
            vps.push(Arc::new(SharedLocks::new(n)));
            n += 1;
        }
        let ghost locks = Seq::new(vps@.len(), |i: int| *vps@[i]);
        assert(made_in_order(locks)) by {
            assert forall|i: int| 0 <= i < locks.len() implies made_with_state(
                (#[trigger] locks[i]).state,
            ).index == i && made_with_page(locks[i].event_page).index == i by {
                assert(*vps@[i] == locks[i]);
            }
        }
        GlobalSynic { vps }
    }

    /// Signals an event to the specified virtual processor.
    ///
    /// `interrupt` is called with the target APIC vector while holding a lock
    /// preventing the synic state from changing.
    ///
    /// Returns `true` if the event flag is newly signaled.
    pub fn signal_event<I: RequestInterrupt + ?Sized>(
        &self,
        vp: VpIndex,
        sint_index: u8,
        flag: u16,
        interrupt: &mut I,
    ) -> (reply: Result<bool, SintProxied>)
        requires
            vp.number < self.locks().len() ==> sint_index < NUM_SINTS && flag_offset(
                sint_index,
                flag,
            ) < HV_PAGE_SIZE_USIZE,
        ensures
            separate(self.locks()),
            vp.number >= self.locks().len() ==> {
                &&& reply == Ok::<bool, SintProxied>(false)
                &&& final(interrupt).requests() == old(interrupt).requests()
            },
            vp.number < self.locks().len() ==> exists|shared: SharedModel|
                {
                    &&& #[trigger] event_signaled(
                        self.locks()[vp.number as int],
                        shared,
                        sint_index,
                        flag,
                    )
                    &&& reply == shared.event_reply(sint_index, flag)
                    &&& final(interrupt).requests() == old(interrupt).requests()
                        + shared.event_requests(sint_index, flag)
                },
    {
        match self.try_signal_event(vp, sint_index, flag, interrupt) {
            Some(reply) => reply,
            // Does not happen: the flag lies in the page.
            None => Ok(false),
        }
    }

    /// Signals an event like [`Self::signal_event`], with any flag.
    ///
    /// Returns `None`, and leaves the event flags page alone, if the source takes
    /// events and the flag lies beyond the page.
    pub fn try_signal_event<I: RequestInterrupt + ?Sized>(
        &self,
        vp: VpIndex,
        sint_index: u8,
        flag: u16,
        interrupt: &mut I,
    ) -> (reply: Option<Result<bool, SintProxied>>)
        requires
            vp.number < self.locks().len() ==> sint_index < NUM_SINTS,
        ensures
            separate(self.locks()),
            vp.number >= self.locks().len() ==> {
                &&& reply == Some(Ok::<bool, SintProxied>(false))
                &&& final(interrupt).requests() == old(interrupt).requests()
            },
            vp.number < self.locks().len() ==> match reply {
                Some(reply) => exists|shared: SharedModel|
                    {
                        &&& shared.takes_events(sint_index) ==> flag_offset(sint_index, flag)
                            < HV_PAGE_SIZE_USIZE
                        &&& #[trigger] event_signaled(
                            self.locks()[vp.number as int],
                            shared,
                            sint_index,
                            flag,
                        )
                        &&& reply == shared.event_reply(sint_index, flag)
                        &&& final(interrupt).requests() == old(interrupt).requests()
                            + shared.event_requests(sint_index, flag)
                    },
                None => {
                    &&& flag_offset(sint_index, flag) >= HV_PAGE_SIZE_USIZE
                    &&& final(interrupt).requests() == old(interrupt).requests()
                    &&& exists|shared: SharedModel|
                        {
                            &&& #[trigger] event_given_up(self.locks()[vp.number as int], shared)
                            &&& shared.takes_events(sint_index)
                        }
                },
            },
    {
        proof {
            use_type_invariant(self);
        }
        let index: usize = vp.index() as usize;
        if index >= self.vps.len() {
            return Some(Ok(false));
        }
        let ghost locks = self.locks()[vp.number as int];
        let guard = self.vps[index].read_state();
        let mut page_guard = self.vps[index].write_page();
        let ghost shared = SharedModel {
            state: read_hold(guard).found,
            siefp_page: page_hold(page_guard).found.page,
        };
        let state = state_ref(&guard);
        assert(state_read(locks.state, shared.state));
        let takes = match state.takes_events(sint_index) {
            Ok(takes) => takes,
            Err(_) => false,
        };
        if takes && flag_byte_offset(sint_index, flag) >= HV_PAGE_SIZE_USIZE {
            let receipt = release_page(page_guard);
            assert(page_released(receipt).now.page == shared.siefp_page);
            assert(event_given_up(locks, shared));
            return None;
        }
        // The page is released before an interrupt is asked for, whose handler
        // may signal the next event. The state is still held then.
        let mut waiting: Vec<InterruptRequest> = Vec::new();
        let reply = deliver_event(
            state,
            page_mut(&mut page_guard),
            sint_index,
            flag,
            &mut waiting,
        );
        let receipt = release_page(page_guard);
        assert(page_released(receipt).now.page == shared.after_event(sint_index, flag).siefp_page);
        assert(event_signaled(locks, shared, sint_index, flag));
        assert(waiting@ =~= shared.event_requests(sint_index, flag));
        raise_interrupts(&waiting, interrupt);
        Some(reply)
    }

    /// Adds a virtual processor to the synthetic interrupt controller state.
    ///
    /// Returns `None` if the processor was added before.
    pub fn add_vp(&self, vp_index: VpIndex) -> (synic: Option<ProcessorSynic>)
        requires
            vp_index.number < self.locks().len(),
        ensures
            separate(self.locks()),
            exists|shared: SharedModel|
                {
                    &&& #[trigger] processor_added(self.locks()[vp_index.number as int], shared)
                    &&& synic is None <==> shared.state.online
                },
            synic matches Some(synic) ==> {
                &&& synic@ == ProcessorModel::fresh()
                &&& synic.handle().locks() == self.locks()[vp_index.number as int]
            },
    {
        proof {
            use_type_invariant(self);
        }
        let locks = &self.vps[vp_index.index() as usize];
        assert(**locks == self.locks()[vp_index.number as int]);
        let mut guard = locks.write_state();
        let mut page_guard = locks.write_page();
        let ghost shared = SharedModel {
            state: state_hold(guard).found,
            siefp_page: page_hold(page_guard).found.page,
        };
        let added = add_processor(state_mut(&mut guard), page_mut(&mut page_guard));
        let page_receipt = release_page(page_guard);
        let receipt = release_state(guard);
        assert(state_released(receipt).now == shared.after_add().state);
        assert(page_released(page_receipt).now.page == shared.after_add().siefp_page);
        assert(processor_added(**locks, shared));
        if added {
            Some(ProcessorSynic::new(SharedHandle::new(locks)))
        } else {
            None
        }
    }

    /// Returns the event flags page of a virtual processor, as its guest sees
    /// it.
    pub fn event_page(&self, vp: VpIndex) -> (page: OverlayPage)
        requires
            vp.number < self.locks().len(),
        ensures
            page_moved(self.locks()[vp.number as int].event_page, page@, page@),
    {
        let mut guard = self.vps[vp.index() as usize].write_page();
        let page = page_mut(&mut guard).page;
        let receipt = release_page(guard);
        assert(page_released(receipt).now.page == page@);
        page
    }

    /// Writes to the event flags page of a virtual processor, as its guest
    /// does.
    pub fn write_event_page(&self, vp: VpIndex, offset: usize, data: &[u8])
        requires
            vp.number < self.locks().len(),
            offset + data@.len() <= HV_PAGE_SIZE_USIZE,
        ensures
            exists|page: PageModel| #[trigger]
                page_moved(
                    self.locks()[vp.number as int].event_page,
                    page,
                    page.written(offset as int, data@),
                ),
    {
        let mut guard = self.vps[vp.index() as usize].write_page();
        let ghost page = page_hold(guard).found.page;
        page_mut(&mut guard).page.write(offset, data);
        let receipt = release_page(guard);
        let ghost written = page.written(offset as int, data@);
        assert(page_released(receipt).now.page == written);
        assert(page_moved(self.locks()[vp.number as int].event_page, page, written));
    }
}

} // verus!
