//! Laws of the partition: its processors have nothing in common, and each is
//! added once.

use crate::global::event_signaled;
use crate::global::processor_added;
use crate::global::separate;
use crate::lock::page_moved;
use crate::lock::page_released;
use crate::lock::read_hold;
use crate::lock::state_moved;
use crate::lock::state_read;
use crate::lock::state_released;
use crate::lock::Released;
use crate::lock::SharedLocks;
use crate::lock::StateHold;
use crate::lock::StateReadGuard;
use crate::overlay::PageModel;
use crate::registers::HvError;
use crate::registers::HvSynicSimpSiefp;
use crate::shared::EventPageModel;
use crate::shared::SharedModel;
use crate::shared::StateModel;
use vstd::prelude::*;

verus! {

/// Processors have their own states and event flags pages: whoever took the
/// locks of one took those of no other.
pub proof fn law_processors_share_nothing(
    locks: Seq<SharedLocks>,
    vp: int,
    other: int,
    receipt: Released,
    guard: StateReadGuard<'_>,
)
    requires
        separate(locks),
        0 <= vp < locks.len(),
        0 <= other < locks.len(),
        vp != other,
    ensures
        page_released(receipt).lock == locks[vp].event_page ==> page_released(receipt).lock
            != locks[other].event_page,
        state_released(receipt).lock == locks[vp].state ==> state_released(receipt).lock
            != locks[other].state,
        read_hold(guard).lock == locks[vp].state ==> read_hold(guard).lock != locks[other].state,
{
    if vp < other {
        assert(locks[vp].state != locks[other].state);
    } else {
        assert(locks[other].state != locks[vp].state);
    }
}

/// The states of all processors, once that behind the lock of `receipt` is the
/// one that was left there.
pub open spec fn states_left(
    locks: Seq<SharedLocks>,
    states: Seq<StateModel>,
    receipt: Released,
) -> Seq<StateModel> {
    Seq::new(
        states.len(),
        |i: int|
            if locks[i].state == state_released(receipt).lock {
                state_released(receipt).now
            } else {
                states[i]
            },
    )
}

/// The event flags pages of all processors, once that behind the lock of
/// `receipt` is the one that was left there.
pub open spec fn pages_left(
    locks: Seq<SharedLocks>,
    pages: Seq<PageModel>,
    receipt: Released,
) -> Seq<PageModel> {
    Seq::new(
        pages.len(),
        |i: int|
            if locks[i].event_page == page_released(receipt).lock {
                page_released(receipt).now.page
            } else {
                pages[i]
            },
    )
}

/// The states of all processors went from `states` to `after` through one lock.
pub open spec fn states_moved(
    locks: Seq<SharedLocks>,
    states: Seq<StateModel>,
    after: Seq<StateModel>,
) -> bool {
    exists|receipt: Released| #[trigger] states_left(locks, states, receipt) == after
}

/// The event flags pages of all processors went from `pages` to `after` through
/// one lock.
pub open spec fn pages_moved(
    locks: Seq<SharedLocks>,
    pages: Seq<PageModel>,
    after: Seq<PageModel>,
) -> bool {
    exists|receipt: Released| #[trigger] pages_left(locks, pages, receipt) == after
}

/// Whoever changes the state of one processor leaves those of all others alone.
pub proof fn law_state_moves_alone(
    locks: Seq<SharedLocks>,
    states: Seq<StateModel>,
    vp: int,
    after: StateModel,
)
    requires
        separate(locks),
        states.len() == locks.len(),
        0 <= vp < locks.len(),
        state_moved(locks[vp].state, states[vp], after),
    ensures
        states_moved(locks, states, states.update(vp, after)),
{
    let receipt = choose|receipt: Released| #[trigger]
        state_released(receipt) == (StateHold {
            lock: locks[vp].state,
            found: states[vp],
            now: after,
        });
    let left = states_left(locks, states, receipt);
    assert forall|i: int| 0 <= i < states.len() implies left[i] == states.update(vp, after)[i] by {
        if i < vp {
            assert(locks[i].state != locks[vp].state);
        } else if i > vp {
            assert(locks[vp].state != locks[i].state);
        }
    }
    assert(left =~= states.update(vp, after));
}

/// Whoever changes the event flags page of one processor leaves those of all
/// others alone.
pub proof fn law_page_moves_alone(
    locks: Seq<SharedLocks>,
    pages: Seq<PageModel>,
    vp: int,
    after: PageModel,
)
    requires
        separate(locks),
        pages.len() == locks.len(),
        0 <= vp < locks.len(),
        page_moved(locks[vp].event_page, pages[vp], after),
    ensures
        pages_moved(locks, pages, pages.update(vp, after)),
{
    let receipt = choose|receipt: Released|
        {
            &&& (#[trigger] page_released(receipt)).lock == locks[vp].event_page
            &&& page_released(receipt).found.page == pages[vp]
            &&& page_released(receipt).now.page == after
        };
    let left = pages_left(locks, pages, receipt);
    assert forall|i: int| 0 <= i < pages.len() implies left[i] == pages.update(vp, after)[i] by {
        if i < vp {
            assert(locks[i].event_page != locks[vp].event_page);
        } else if i > vp {
            assert(locks[vp].event_page != locks[i].event_page);
        }
    }
    assert(left =~= pages.update(vp, after));
}

/// A processor that is added leaves the states and the event flags pages of all
/// others alone.
pub proof fn law_add_leaves_others_alone(
    locks: Seq<SharedLocks>,
    states: Seq<StateModel>,
    pages: Seq<PageModel>,
    vp: int,
)
    requires
        separate(locks),
        states.len() == locks.len(),
        pages.len() == locks.len(),
        0 <= vp < locks.len(),
        processor_added(locks[vp], (SharedModel { state: states[vp], siefp_page: pages[vp] })),
    ensures
        ({
            let added = SharedModel { state: states[vp], siefp_page: pages[vp] }.after_add();
            &&& states_moved(locks, states, states.update(vp, added.state))
            &&& pages_moved(locks, pages, pages.update(vp, added.siefp_page))
        }),
{
    let added = SharedModel { state: states[vp], siefp_page: pages[vp] }.after_add();
    law_state_moves_alone(locks, states, vp, added.state);
    law_page_moves_alone(locks, pages, vp, added.siefp_page);
}

/// An event to one processor leaves the event flags pages of all others alone.
pub proof fn law_event_leaves_others_alone(
    locks: Seq<SharedLocks>,
    pages: Seq<PageModel>,
    state: StateModel,
    vp: int,
    sint_index: u8,
    flag: u16,
)
    requires
        separate(locks),
        pages.len() == locks.len(),
        0 <= vp < locks.len(),
        event_signaled(
            locks[vp],
            (SharedModel { state, siefp_page: pages[vp] }),
            sint_index,
            flag,
        ),
    ensures
        ({
            let shared = SharedModel { state, siefp_page: pages[vp] };
            pages_moved(
                locks,
                pages,
                pages.update(vp, shared.after_event(sint_index, flag).siefp_page),
            )
        }),
{
    let shared = SharedModel { state, siefp_page: pages[vp] };
    law_page_moves_alone(locks, pages, vp, shared.after_event(sint_index, flag).siefp_page);
}

/// What can happen to what a processor shares.
pub enum SharedStep {
    /// The processor is added.
    Add,
    /// The processor is reset.
    Reset,
    /// The processor, whose `SIEFP` is `siefp`, writes an MSR.
    Msr { siefp: HvSynicSimpSiefp, msr: u32, v: u64, reply: Result<(), HvError> },
    /// An event is signaled to the processor.
    Event { sint_index: u8, flag: u16 },
    /// The guest writes to the event flags page.
    PageWrite { offset: int, data: Seq<u8> },
}

impl SharedModel {
    /// What is shared after one step.
    pub open spec fn after_step(self, step: SharedStep) -> Self {
        match step {
            SharedStep::Add => self.after_add(),
            SharedStep::Reset => SharedModel::at_reset(self.state.index),
            SharedStep::Msr { siefp, msr, v, reply } => self.with_msr(siefp, msr, v, reply),
            SharedStep::Event { sint_index, flag } => self.after_event(sint_index, flag),
            SharedStep::PageWrite { offset, data } => self.with_event_page_write(offset, data),
        }
    }

    /// What is shared after several steps.
    pub open spec fn after_steps(self, steps: Seq<SharedStep>) -> Self
        decreases steps.len(),
    {
        if steps.len() == 0 {
            self
        } else {
            self.after_steps(steps.drop_last()).after_step(steps.last())
        }
    }
}

/// The processor was added in one of the steps.
pub open spec fn added_in(steps: Seq<SharedStep>) -> bool {
    exists|i: int| 0 <= i < steps.len() && #[trigger] steps[i] == SharedStep::Add
}

/// Only a processor that was added is reset.
pub open spec fn resets_follow_an_add(steps: Seq<SharedStep>) -> bool {
    forall|i: int|
        0 <= i < steps.len() && #[trigger] steps[i] == SharedStep::Reset ==> added_in(steps.take(i))
}

/// A processor is added once: whatever happened to it, it is found online, and
/// cannot be added, exactly if it was added before.
pub proof fn law_processor_is_added_once(index: u32, steps: Seq<SharedStep>)
    requires
        resets_follow_an_add(steps),
    ensures
        ({
            let made = SharedModel {
                state: StateModel::offline(index),
                siefp_page: PageModel::fresh(),
            };
            &&& made.after_steps(steps).state.online <==> added_in(steps)
            &&& made.after_steps(steps).state.index == index
        }),
    decreases steps.len(),
{
    if steps.len() > 0 {
        let before = steps.drop_last();
        let last = steps.len() - 1;
        assert forall|i: int|
            0 <= i < before.len() && #[trigger] before[i] == SharedStep::Reset implies added_in(
            before.take(i),
        ) by {
            assert(steps[i] == SharedStep::Reset);
            assert(before.take(i) =~= steps.take(i));
        }
        law_processor_is_added_once(index, before);
        assert(steps.take(last) =~= before);
        if added_in(before) {
            let i = choose|i: int| 0 <= i < before.len() && #[trigger] before[i] == SharedStep::Add;
            assert(steps[i] == SharedStep::Add);
        }
        if added_in(steps) && steps[last] != SharedStep::Add {
            let i = choose|i: int| 0 <= i < steps.len() && #[trigger] steps[i] == SharedStep::Add;
            assert(before[i] == SharedStep::Add);
        }
        assert(steps[last] == steps.last());
    }
}

/// What a processor shares before it is added, and after it is added or reset:
/// first it is offline, with its controller off and all source registers zero;
/// then it is online, with its controller on, its sources masked, and its event
/// flags page zeroed and out of the guest's sight.
pub proof fn law_shared_at_first_and_at_reset(index: u32, n: int)
    requires
        0 <= n < 16,
    ensures
        ({
            let offline = StateModel::offline(index);
            &&& offline.index == index
            &&& !offline.online
            &&& !offline.enabled
            &&& offline.sint.len() == 16
            &&& offline.sint[n].bits == 0
        }),
        ({
            let reset = StateModel::at_reset(index);
            &&& reset.index == index
            &&& reset.online
            &&& reset.enabled
            &&& reset.sint.len() == 16
            &&& reset.sint[n].bits == 0x1_0000
        }),
        SharedModel::at_reset(index).state == StateModel::at_reset(index),
        SharedModel::at_reset(index).siefp_page.gpn is None,
        SharedModel::at_reset(index).siefp_page.contents.len() == 4096,
        forall|i: int|
            0 <= i < 4096 ==> #[trigger] SharedModel::at_reset(index).siefp_page.contents[i] == 0,
{
}

/// A processor that is added is as after a reset if it was offline, and else is
/// left as it was, with its page.
pub proof fn law_add(shared: SharedModel)
    ensures
        shared.state.online ==> shared.after_add() == shared,
        !shared.state.online ==> shared.after_add() == SharedModel::at_reset(shared.state.index),
        shared.after_add().state == shared.state.after_add(),
{
}

/// What the locks tell of a processor that was added: what was found behind each
/// of them, and what was left.
pub proof fn law_added_processor_is_seen_by_others(locks: SharedLocks, shared: SharedModel)
    requires
        processor_added(locks, shared),
    ensures
        exists|receipt: Released|
            {
                &&& (#[trigger] state_released(receipt)).lock == locks.state
                &&& state_released(receipt).found == shared.state
                &&& state_released(receipt).now == if shared.state.online {
                    shared.state
                } else {
                    StateModel::at_reset(shared.state.index)
                }
            },
        exists|receipt: Released|
            {
                &&& (#[trigger] page_released(receipt)).lock == locks.event_page
                &&& page_released(receipt).found.page == shared.siefp_page
                &&& page_released(receipt).now.index == page_released(receipt).found.index
                &&& page_released(receipt).now.page == if shared.state.online {
                    shared.siefp_page
                } else {
                    PageModel::fresh()
                }
            },
{
    law_moves_are_told_by_receipts(
        locks,
        shared.state,
        shared.after_add().state,
        shared.siefp_page,
        shared.after_add().siefp_page,
    );
}

/// A move of what is behind a lock, or a look at it, is one that a holder of the
/// lock made: it found the one value and left the other.
pub proof fn law_moves_are_told_by_receipts(
    locks: SharedLocks,
    state: StateModel,
    state_after: StateModel,
    page: PageModel,
    page_after: PageModel,
)
    ensures
        state_moved(locks.state, state, state_after) ==> exists|receipt: Released|
            {
                &&& (#[trigger] state_released(receipt)).lock == locks.state
                &&& state_released(receipt).found == state
                &&& state_released(receipt).now == state_after
            },
        state_read(locks.state, state) ==> exists|guard: StateReadGuard<'_>|
            {
                &&& (#[trigger] read_hold(guard)).lock == locks.state
                &&& read_hold(guard).found == state
                &&& read_hold(guard).now == state
            },
        page_moved(locks.event_page, page, page_after) ==> exists|receipt: Released|
            {
                &&& (#[trigger] page_released(receipt)).lock == locks.event_page
                &&& page_released(receipt).found.page == page
                &&& page_released(receipt).now.index == page_released(receipt).found.index
                &&& page_released(receipt).now.page == page_after
            },
{
    if page_moved(locks.event_page, page, page_after) {
        let receipt = choose|receipt: Released|
            {
                &&& (#[trigger] page_released(receipt)).lock == locks.event_page
                &&& page_released(receipt).found.page == page
                &&& page_released(receipt).now == (EventPageModel {
                    page: page_after,
                    ..page_released(receipt).found
                })
            };
        assert(page_released(receipt).now.index == page_released(receipt).found.index);
    }
}

/// A write of the guest's to its event flags page puts each byte in its place,
/// and changes nothing else.
pub proof fn law_guest_writes(shared: SharedModel, offset: int, data: Seq<u8>, i: int)
    requires
        0 <= offset,
        offset + data.len() <= shared.siefp_page.contents.len(),
        0 <= i < shared.siefp_page.contents.len(),
    ensures
        ({
            let after = shared.with_event_page_write(offset, data);
            &&& after.state == shared.state
            &&& after.siefp_page.gpn == shared.siefp_page.gpn
            &&& after.siefp_page.contents[i] == if offset <= i < offset + data.len() {
                data[i - offset]
            } else {
                shared.siefp_page.contents[i]
            }
        }),
{
}

} // verus!
