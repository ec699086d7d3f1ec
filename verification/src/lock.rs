//! The locks around what a virtual processor shares with others.
//!
//! The state is read by everyone who signals an event, and written by the
//! processor it belongs to. The event flags page has a lock of its own, so
//! that those who hold the state for reading can set flags. Where both are
//! taken, the state comes first.

use crate::overlay::PageModel;
use crate::shared::EventPage;
use crate::shared::EventPageModel;
use crate::shared::SharedProcessorState;
use crate::shared::StateModel;
use parking_lot::RwLock;
use parking_lot::RwLockReadGuard;
use parking_lot::RwLockWriteGuard;
use std::sync::Arc;
use vstd::prelude::*;

verus! {

/// `parking_lot`'s reader-writer lock. What it holds changes under shared
/// references, so nothing is claimed of the contents of a lock as such.
#[verifier::external_type_specification]
#[verifier::external_body]
#[verifier::reject_recursive_types(R)]
#[verifier::reject_recursive_types(T)]
pub struct ExRwLock<R, T: ?Sized>(parking_lot::lock_api::RwLock<R, T>);

/// The raw lock under it.
#[verifier::external_type_specification]
#[verifier::external_body]
pub struct ExRawRwLock(parking_lot::RawRwLock);

/// `parking_lot`'s write guard on a shared state: exclusive access, until it
/// is dropped.
#[verifier::external_body]
pub struct StateGuard<'a>(RwLockWriteGuard<'a, SharedProcessorState>);

/// `parking_lot`'s read guard on a shared state: the state does not change
/// until it is dropped.
#[verifier::external_body]
pub struct StateReadGuard<'a>(RwLockReadGuard<'a, SharedProcessorState>);

/// `parking_lot`'s write guard on an event flags page: exclusive access, until
/// it is dropped.
#[verifier::external_body]
pub struct PageGuard<'a>(RwLockWriteGuard<'a, EventPage>);

/// The record of a write guard that was dropped.
#[verifier::external_body]
pub struct Released(());

/// A lock on a state, the state found when it was taken, and the state now.
#[verifier::ext_equal]
pub struct StateHold {
    pub lock: RwLock<SharedProcessorState>,
    pub found: StateModel,
    pub now: StateModel,
}

/// A lock on a page, the page found when it was taken, and the page now.
#[verifier::ext_equal]
pub struct PageHold {
    pub lock: RwLock<EventPage>,
    pub found: EventPageModel,
    pub now: EventPageModel,
}

/// The state that a lock was made with.
pub uninterp spec fn made_with_state(lock: RwLock<SharedProcessorState>) -> StateModel;

/// The page that a lock was made with.
pub uninterp spec fn made_with_page(lock: RwLock<EventPage>) -> EventPageModel;

/// What a write guard on a state holds.
pub uninterp spec fn state_hold(guard: StateGuard<'_>) -> StateHold;

/// What a read guard on a state holds.
pub uninterp spec fn read_hold(guard: StateReadGuard<'_>) -> StateHold;

/// What a write guard on a page holds.
pub uninterp spec fn page_hold(guard: PageGuard<'_>) -> PageHold;

/// What a write guard on a state held when it was dropped.
pub uninterp spec fn state_released(receipt: Released) -> StateHold;

/// What a write guard on a page held when it was dropped.
pub uninterp spec fn page_released(receipt: Released) -> PageHold;

/// A holder of `lock` found the state `before` behind it, and left the state
/// `after`.
pub open spec fn state_moved(
    lock: RwLock<SharedProcessorState>,
    before: StateModel,
    after: StateModel,
) -> bool {
    exists|receipt: Released| #[trigger]
        state_released(receipt) == (StateHold { lock, found: before, now: after })
}

/// A reader of `lock` found the state `state` behind it, and left it as it was.
pub open spec fn state_read(lock: RwLock<SharedProcessorState>, state: StateModel) -> bool {
    exists|guard: StateReadGuard<'_>| #[trigger]
        read_hold(guard) == (StateHold { lock, found: state, now: state })
}

/// A holder of `lock` found the page `before` behind it, and left the page
/// `after`.
pub open spec fn page_moved(lock: RwLock<EventPage>, before: PageModel, after: PageModel) -> bool {
    exists|receipt: Released|
        {
            &&& (#[trigger] page_released(receipt)).lock == lock
            &&& page_released(receipt).found.page == before
            &&& page_released(receipt).now == (EventPageModel {
                page: after,
                ..page_released(receipt).found
            })
        }
}

/// `parking_lot::RwLock::new`: a lock that holds `state`.
#[verifier::external_body]
fn new_state_lock(state: SharedProcessorState) -> (lock: RwLock<SharedProcessorState>)
    ensures
        made_with_state(lock) == state@,
{
    RwLock::new(state)
}

/// `parking_lot::RwLock::new`: a lock that holds `page`.
#[verifier::external_body]
fn new_page_lock(page: EventPage) -> (lock: RwLock<EventPage>)
    ensures
        made_with_page(lock) == page@,
{
    RwLock::new(page)
}

/// `parking_lot::RwLock::write`: waits for exclusive access to the state behind
/// the lock. Which state is found there, other holders decide. A thread that
/// holds the lock already would wait forever; no function here takes one twice.
#[verifier::external_body]
fn write_state_lock<'a>(lock: &'a RwLock<SharedProcessorState>) -> (guard: StateGuard<'a>)
    ensures
        state_hold(guard).lock == *lock,
        state_hold(guard).now == state_hold(guard).found,
{
    StateGuard(lock.write())
}

/// `parking_lot::RwLock::read`: waits until no one writes the state behind the
/// lock, and keeps it from being written. Which state is found there, other
/// holders decide. A thread that reads already can wait forever if another
/// waits to write in between.
#[verifier::external_body]
fn read_state_lock<'a>(lock: &'a RwLock<SharedProcessorState>) -> (guard: StateReadGuard<'a>)
    ensures
        read_hold(guard).lock == *lock,
        read_hold(guard).now == read_hold(guard).found,
{
    StateReadGuard(lock.read())
}

/// `parking_lot::RwLock::write`: waits for exclusive access to the page behind
/// the lock. Which page is found there, other holders decide. A thread that
/// holds the lock already would wait forever; no function here takes one twice.
#[verifier::external_body]
fn write_page_lock<'a>(lock: &'a RwLock<EventPage>) -> (guard: PageGuard<'a>)
    ensures
        page_hold(guard).lock == *lock,
        page_hold(guard).now == page_hold(guard).found,
{
    PageGuard(lock.write())
}

/// `DerefMut::deref_mut` of `parking_lot`'s write guard: access to the state
/// behind the lock. As long as the guard is held, the state is what its holder
/// makes of it.
#[verifier::external_body]
pub(crate) fn state_mut<'a, 'b>(guard: &'b mut StateGuard<'a>) -> (state:
    &'b mut SharedProcessorState)
    ensures
        state@ == state_hold(*old(guard)).now,
        state_hold(*final(guard)) == (StateHold {
            now: final(state)@,
            ..state_hold(*old(guard))
        }),
{
    &mut guard.0
}

/// `Deref::deref` of `parking_lot`'s read guard: a look at the state behind the
/// lock.
#[verifier::external_body]
pub(crate) fn state_ref<'a, 'b>(guard: &'b StateReadGuard<'a>) -> (state:
    &'b SharedProcessorState)
    ensures
        state@ == read_hold(*guard).now,
{
    &guard.0
}

/// `DerefMut::deref_mut` of `parking_lot`'s write guard: access to the page
/// behind the lock. As long as the guard is held, the page is what its holder
/// makes of it.
#[verifier::external_body]
pub(crate) fn page_mut<'a, 'b>(guard: &'b mut PageGuard<'a>) -> (page: &'b mut EventPage)
    ensures
        page@ == page_hold(*old(guard)).now,
        page_hold(*final(guard)) == (PageHold { now: final(page)@, ..page_hold(*old(guard)) }),
{
    &mut guard.0
}

/// `Drop::drop` of `parking_lot`'s write guard: opens the lock again, and leaves
/// behind it the state that the guard held.
#[verifier::external_body]
pub(crate) fn release_state(guard: StateGuard<'_>) -> (receipt: Released)
    ensures
        state_released(receipt) == state_hold(guard),
{
    drop(guard.0);
    Released(())
}

/// `Drop::drop` of `parking_lot`'s write guard: opens the lock again, and leaves
/// behind it the page that the guard held.
#[verifier::external_body]
pub(crate) fn release_page(guard: PageGuard<'_>) -> (receipt: Released)
    ensures
        page_released(receipt) == page_hold(guard),
{
    drop(guard.0);
    Released(())
}

/// `std::sync::Arc::clone`: another reference to the same locks.
#[verifier::external_body]
fn share(locks: &Arc<SharedLocks>) -> (shared: Arc<SharedLocks>)
    ensures
        shared == *locks,
{
    Arc::clone(locks)
}

/// The locks around what one virtual processor shares with others.
pub struct SharedLocks {
    pub state: RwLock<SharedProcessorState>,
    pub event_page: RwLock<EventPage>,
}

impl SharedLocks {
    /// The locks of the virtual processor `index`, which is not online yet.
    pub(crate) fn new(index: u32) -> (locks: Self)
        ensures
            made_with_state(locks.state) == StateModel::offline(index),
            made_with_page(locks.event_page) == (EventPageModel { index, page: PageModel::fresh() }),
    {
        SharedLocks {
            state: new_state_lock(SharedProcessorState::new(index)),
            event_page: new_page_lock(EventPage::new(index)),
        }
    }

    /// Takes the state for reading.
    pub(crate) fn read_state(&self) -> (guard: StateReadGuard<'_>)
        ensures
            read_hold(guard).lock == self.state,
            read_hold(guard).now == read_hold(guard).found,
    {
        read_state_lock(&self.state)
    }

    /// Takes the state for writing.
    pub(crate) fn write_state(&self) -> (guard: StateGuard<'_>)
        ensures
            state_hold(guard).lock == self.state,
            state_hold(guard).now == state_hold(guard).found,
    {
        write_state_lock(&self.state)
    }

    /// Takes the event flags page for writing.
    pub(crate) fn write_page(&self) -> (guard: PageGuard<'_>)
        ensures
            page_hold(guard).lock == self.event_page,
            page_hold(guard).now == page_hold(guard).found,
    {
        write_page_lock(&self.event_page)
    }
}

/// A processor's own access to what it shares.
///
/// It counts the turns in which the processor takes the locks, and those in
/// which it takes the event flags page as well: there is no other way for the
/// processor to reach them.
pub struct SharedHandle {
    locks: Arc<SharedLocks>,
    turns: Ghost<nat>,
    page_turns: Ghost<nat>,
}

impl SharedHandle {
    pub closed spec fn locks(&self) -> SharedLocks {
        *self.locks
    }

    /// How often the locks were taken through this handle.
    pub closed spec fn turns(&self) -> nat {
        self.turns@
    }

    /// How often the event flags page was taken through this handle. The
    /// processor leaves the page alone as long as it stays the same.
    pub closed spec fn page_turns(&self) -> nat {
        self.page_turns@
    }

    pub(crate) fn new(locks: &Arc<SharedLocks>) -> (handle: Self)
        ensures
            handle.locks() == **locks,
            handle.turns() == 0,
            handle.page_turns() == 0,
    {
        SharedHandle { locks: share(locks), turns: Ghost(0), page_turns: Ghost(0) }
    }

    /// Takes the state for writing, in one turn.
    pub(crate) fn write_state(&mut self) -> (guard: StateGuard<'_>)
        ensures
            final(self).locks() == old(self).locks(),
            final(self).turns() == old(self).turns() + 1,
            final(self).page_turns() == old(self).page_turns(),
            state_hold(guard).lock == old(self).locks().state,
            state_hold(guard).now == state_hold(guard).found,
    {
        self.turns = Ghost((self.turns@ + 1) as nat);
        self.locks.write_state()
    }

    /// Takes the state and then the event flags page for writing, in one turn.
    pub(crate) fn write_state_and_page(&mut self) -> (guards: (StateGuard<'_>, PageGuard<'_>))
        ensures
            final(self).locks() == old(self).locks(),
            final(self).turns() == old(self).turns() + 1,
            final(self).page_turns() == old(self).page_turns() + 1,
            state_hold(guards.0).lock == old(self).locks().state,
            state_hold(guards.0).now == state_hold(guards.0).found,
            page_hold(guards.1).lock == old(self).locks().event_page,
            page_hold(guards.1).now == page_hold(guards.1).found,
    {
        self.turns = Ghost((self.turns@ + 1) as nat);
        self.page_turns = Ghost((self.page_turns@ + 1) as nat);
        let state = self.locks.write_state();
        let page = self.locks.write_page();
        (state, page)
    }
}

} // verus!
