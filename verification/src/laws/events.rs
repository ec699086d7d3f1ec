//! Laws of the event flags.

use crate::access::InterruptRequest;
use crate::global::event_given_up;
use crate::global::event_signaled;
use crate::laws::registers::in_step;
use crate::lock::page_released;
use crate::lock::read_hold;
use crate::lock::Released;
use crate::lock::SharedLocks;
use crate::lock::StateReadGuard;
use crate::model::ProcessorModel;
use crate::overlay::HV_PAGE_SIZE_USIZE;
use crate::registers::NUM_SINTS;
use crate::shared::flag_mask;
use crate::shared::flag_offset;
use crate::shared::EventPageModel;
use crate::shared::SharedModel;
use crate::shared::SintProxied;
use vstd::prelude::*;

verus! {

/// Two flags of a byte are the same bit only if they have the same number.
proof fn lemma_flag_masks(byte: u8, flag: u16, other: u16)
    ensures
        (byte | flag_mask(flag)) & flag_mask(flag) != 0,
        byte & flag_mask(flag) != 0 ==> byte | flag_mask(flag) == byte,
        flag % 8 != other % 8 ==> (byte | flag_mask(flag)) & flag_mask(other) == byte & flag_mask(
            other,
        ),
{
    let (a, b) = (flag % 8, other % 8);
    assert((byte | (1u8 << a)) & (1u8 << a) != 0) by (bit_vector)
        requires
            a < 8,
    ;
    assert(byte & (1u8 << a) != 0 ==> byte | (1u8 << a) == byte) by (bit_vector)
        requires
            a < 8,
    ;
    assert(a != b ==> (byte | (1u8 << a)) & (1u8 << b) == byte & (1u8 << b)) by (bit_vector)
        requires
            a < 8,
            b < 8,
    ;
}

/// An event that is taken sets its flag and no other, and changes nothing
/// besides.
pub proof fn law_event_sets_its_flag_alone(
    shared: SharedModel,
    sint_index: u8,
    flag: u16,
    other_sint: u8,
    other_flag: u16,
)
    requires
        shared.siefp_page.contents.len() == HV_PAGE_SIZE_USIZE,
        shared.takes_events(sint_index),
        flag_offset(sint_index, flag) < HV_PAGE_SIZE_USIZE,
        flag_offset(other_sint, other_flag) < HV_PAGE_SIZE_USIZE,
    ensures
        shared.after_event(sint_index, flag).flag_is_set(sint_index, flag),
        flag_offset(other_sint, other_flag) != flag_offset(sint_index, flag) || other_flag % 8
            != flag % 8 ==> shared.after_event(sint_index, flag).flag_is_set(
            other_sint,
            other_flag,
        ) == shared.flag_is_set(other_sint, other_flag),
        shared.after_event(sint_index, flag) == (SharedModel {
            siefp_page: shared.after_event(sint_index, flag).siefp_page,
            ..shared
        }),
        shared.after_event(sint_index, flag).siefp_page.gpn == shared.siefp_page.gpn,
{
    let byte = shared.siefp_page.contents[flag_offset(sint_index, flag)];
    lemma_flag_masks(byte, flag, other_flag);
}

/// An event is newly signaled once: while its flag stays set, signaling it
/// again is no news, raises no interrupt and changes nothing.
pub proof fn law_event_is_signaled_once(shared: SharedModel, sint_index: u8, flag: u16)
    requires
        shared.siefp_page.contents.len() == HV_PAGE_SIZE_USIZE,
        shared.takes_events(sint_index),
        flag_offset(sint_index, flag) < HV_PAGE_SIZE_USIZE,
    ensures
        ({
            let after = shared.after_event(sint_index, flag);
            &&& after.event_reply(sint_index, flag) == Ok::<bool, SintProxied>(false)
            &&& after.event_requests(sint_index, flag) == Seq::<InterruptRequest>::empty()
            &&& after.after_event(sint_index, flag) == after
        }),
{
    let after = shared.after_event(sint_index, flag);
    let offset = flag_offset(sint_index, flag);
    lemma_flag_masks(shared.siefp_page.contents[offset], flag, flag);
    lemma_flag_masks(after.siefp_page.contents[offset], flag, flag);
    assert(after.after_event(sint_index, flag) =~= after);
}

/// An event through a source that is masked or proxied, or to a processor
/// whose controller is off, changes nothing, raises no interrupt and is never
/// news; only that of a proxied source is an error.
pub proof fn law_refused_event_changes_nothing(shared: SharedModel, sint_index: u8, flag: u16)
    requires
        !shared.takes_events(sint_index),
    ensures
        shared.after_event(sint_index, flag) == shared,
        shared.event_requests(sint_index, flag) == Seq::<InterruptRequest>::empty(),
        shared.event_reply(sint_index, flag) == (if shared.state.sint[sint_index as int].proxy() {
            Err(SintProxied)
        } else {
            Ok::<bool, SintProxied>(false)
        }),
{
}

/// An event is news exactly where its source takes events and its flag is clear,
/// and an error exactly where its source is proxied.
pub proof fn law_event_replies(shared: SharedModel, sint_index: u8, flag: u16)
    ensures
        shared.event_reply(sint_index, flag) == Ok::<bool, SintProxied>(true)
            <==> shared.takes_events(sint_index) && !shared.flag_is_set(sint_index, flag),
        shared.event_reply(sint_index, flag) is Err
            <==> shared.state.sint[sint_index as int].proxy(),
{
}

/// An interrupt is asked for exactly where an event is news and the guest does
/// not poll its source, and then with the vector of the source.
pub proof fn law_event_interrupts(shared: SharedModel, sint_index: u8, flag: u16)
    ensures
        shared.event_requests(sint_index, flag).len() > 0 <==> shared.event_reply(sint_index, flag)
            == Ok::<bool, SintProxied>(true) && !shared.state.sint[sint_index as int].polling(),
        shared.event_requests(sint_index, flag).len() > 0 ==> shared.event_requests(
            sint_index,
            flag,
        ) == seq![
            InterruptRequest {
                vector: shared.state.sint[sint_index as int].vector() as u32,
                auto_eoi: shared.state.sint[sint_index as int].auto_eoi(),
            },
        ],
{
}

/// The flags of one source lie in its own part of the page, as long as their
/// numbers do not run past it.
pub proof fn law_sources_have_their_own_flags(
    sint_index: u8,
    flag: u16,
    other_sint: u8,
    other_flag: u16,
)
    requires
        sint_index < NUM_SINTS,
        other_sint < NUM_SINTS,
        flag < 2048,
        other_flag < 2048,
    ensures
        flag_offset(sint_index, flag) < HV_PAGE_SIZE_USIZE,
        flag_offset(sint_index, flag) == flag_offset(other_sint, other_flag) && flag % 8
            == other_flag % 8 <==> sint_index == other_sint && flag == other_flag,
{
    assert(flag_offset(sint_index, flag) == sint_index * 256 + flag / 8);
    assert(flag_offset(other_sint, other_flag) == other_sint * 256 + other_flag / 8);
    assert(flag == (flag / 8) * 8 + flag % 8);
    assert(other_flag == (other_flag / 8) * 8 + other_flag % 8);
}

/// Other processors' events go by the registers: they are taken where the
/// controller is on and the source neither masked nor proxied, and are an
/// error where the source is proxied.
pub proof fn law_events_go_by_the_registers(
    synic: ProcessorModel,
    shared: SharedModel,
    sint_index: u8,
    flag: u16,
)
    requires
        in_step(synic, shared),
    ensures
        shared.takes_events(sint_index) <==> synic.sints.scontrol.enabled()
            && synic.sints.takes_messages(sint_index),
        shared.event_reply(sint_index, flag) is Err
            <==> synic.sints.sint[sint_index as int].proxy(),
{
}

/// An event with `flag` through a source changes the event flags page at byte
/// `sint_index * 256 + flag / 8` at most, where it sets the bit of value
/// `1 << (flag % 8)`. It does so exactly if the controller is on and the source
/// neither masked nor proxied.
pub proof fn law_event_in_the_page(shared: SharedModel, sint_index: u8, flag: u16, i: int)
    requires
        shared.siefp_page.contents.len() == 4096,
        sint_index < 16,
        sint_index * 256 + flag / 8 < 4096,
        0 <= i < 4096,
    ensures
        ({
            let sint = shared.state.sint[sint_index as int].bits;
            let taken = shared.state.enabled && sint & 0x1_0000 == 0 && sint & 0x10_0000 == 0;
            let before = shared.siefp_page;
            let after = shared.after_event(sint_index, flag).siefp_page;
            &&& after.contents.len() == 4096
            &&& after.contents[i] == if taken && i == sint_index * 256 + flag / 8 {
                before.contents[i] | (1u8 << (flag % 8))
            } else {
                before.contents[i]
            }
            &&& after.gpn == before.gpn
            &&& shared.after_event(sint_index, flag).state == shared.state
        }),
{
}

/// What an event is answered, and the interrupt it raises, by the bits of the
/// source's register and of the page.
pub proof fn law_event_answers(shared: SharedModel, sint_index: u8, flag: u16)
    requires
        shared.siefp_page.contents.len() == 4096,
        sint_index < 16,
        sint_index * 256 + flag / 8 < 4096,
    ensures
        ({
            let sint = shared.state.sint[sint_index as int].bits;
            let byte = shared.siefp_page.contents[sint_index * 256 + flag / 8];
            let news = shared.state.enabled && sint & 0x1_0000 == 0 && sint & 0x10_0000 == 0 && byte
                & (1u8 << (flag % 8)) == 0;
            let requests = shared.event_requests(sint_index, flag);
            &&& sint & 0x10_0000 != 0 ==> shared.event_reply(sint_index, flag) == Err::<
                bool,
                SintProxied,
            >(SintProxied)
            &&& sint & 0x10_0000 == 0 ==> shared.event_reply(sint_index, flag) == Ok::<
                bool,
                SintProxied,
            >(news)
            &&& news && sint & 0x4_0000 == 0 ==> {
                &&& requests.len() == 1
                &&& requests[0].vector == sint & 0xff
                &&& requests[0].auto_eoi <==> sint & 0x2_0000 != 0
            }
            &&& !news || sint & 0x4_0000 != 0 ==> requests.len() == 0
        }),
{
    let sint = shared.state.sint[sint_index as int].bits;
    assert(((sint & 0xff) as u8) as u32 == sint & 0xff) by (bit_vector);
}

/// An event that is refused for its source, or because the controller is off, is
/// refused whatever its flag.
pub proof fn law_closed_source_refuses_any_flag(shared: SharedModel, sint_index: u8, flag: u16)
    requires
        !shared.state.enabled || shared.state.sint[sint_index as int].bits & 0x1_0000 != 0
            || shared.state.sint[sint_index as int].bits & 0x10_0000 != 0,
    ensures
        shared.after_event(sint_index, flag) == shared,
        shared.event_requests(sint_index, flag).len() == 0,
        shared.event_reply(sint_index, flag) != Ok::<bool, SintProxied>(true),
        shared.event_reply(sint_index, flag) is Err <==> shared.state.sint[sint_index as int].bits
            & 0x10_0000 != 0,
{
}

/// What the locks tell of an event that was signaled: its state was found and
/// left under the lock of the state, and the page was left under the lock of the
/// page with the one flag set, or as it was found.
pub proof fn law_signaled_event_is_in_the_page(
    locks: SharedLocks,
    shared: SharedModel,
    sint_index: u8,
    flag: u16,
)
    requires
        event_signaled(locks, shared, sint_index, flag),
        shared.siefp_page.contents.len() == 4096,
        sint_index < 16,
        sint_index * 256 + flag / 8 < 4096,
    ensures
        exists|guard: StateReadGuard<'_>|
            {
                &&& (#[trigger] read_hold(guard)).lock == locks.state
                &&& read_hold(guard).found == shared.state
                &&& read_hold(guard).now == shared.state
            },
        exists|receipt: Released|
            {
                let sint = shared.state.sint[sint_index as int].bits;
                let at = sint_index * 256 + flag / 8;
                let found = (#[trigger] page_released(receipt)).found;
                let left = page_released(receipt).now;
                &&& page_released(receipt).lock == locks.event_page
                &&& found.page == shared.siefp_page
                &&& left.index == found.index
                &&& left.page.gpn == found.page.gpn
                &&& left.page.contents == if shared.state.enabled && sint & 0x1_0000 == 0 && sint
                    & 0x10_0000 == 0 {
                    found.page.contents.update(
                        at,
                        found.page.contents[at] | (1u8 << (flag % 8)),
                    )
                } else {
                    found.page.contents
                }
            },
{
    let after = shared.after_event(sint_index, flag).siefp_page;
    let receipt = choose|receipt: Released|
        {
            &&& (#[trigger] page_released(receipt)).lock == locks.event_page
            &&& page_released(receipt).found.page == shared.siefp_page
            &&& page_released(receipt).now == (EventPageModel {
                page: after,
                ..page_released(receipt).found
            })
        };
    let at = sint_index * 256 + flag / 8;
    let sint = shared.state.sint[sint_index as int].bits;
    assert forall|i: int| 0 <= i < 4096 implies #[trigger] after.contents[i] == (if shared.state.enabled
        && sint & 0x1_0000 == 0 && sint & 0x10_0000 == 0 {
        shared.siefp_page.contents.update(
            at,
            shared.siefp_page.contents[at] | (1u8 << (flag % 8)),
        )
    } else {
        shared.siefp_page.contents
    })[i] by {
        law_event_in_the_page(shared, sint_index, flag, i);
    }
    assert(page_released(receipt).now.page.contents =~= if shared.state.enabled && sint & 0x1_0000
        == 0 && sint & 0x10_0000 == 0 {
        shared.siefp_page.contents.update(
            at,
            shared.siefp_page.contents[at] | (1u8 << (flag % 8)),
        )
    } else {
        shared.siefp_page.contents
    });
}

/// What the locks tell of an event that was given up: the page was left as it
/// was found.
pub proof fn law_given_up_event_leaves_the_page(locks: SharedLocks, shared: SharedModel)
    requires
        event_given_up(locks, shared),
    ensures
        exists|guard: StateReadGuard<'_>|
            {
                &&& (#[trigger] read_hold(guard)).lock == locks.state
                &&& read_hold(guard).found == shared.state
            },
        exists|receipt: Released|
            {
                &&& (#[trigger] page_released(receipt)).lock == locks.event_page
                &&& page_released(receipt).found.page == shared.siefp_page
                &&& page_released(receipt).now == page_released(receipt).found
            },
{
    let receipt = choose|receipt: Released|
        {
            &&& (#[trigger] page_released(receipt)).lock == locks.event_page
            &&& page_released(receipt).found.page == shared.siefp_page
            &&& page_released(receipt).now == (EventPageModel {
                page: shared.siefp_page,
                ..page_released(receipt).found
            })
        };
    assert(page_released(receipt).now =~= page_released(receipt).found);
}

/// A flag that was signaled and cleared by the guest is news again; the events
/// that were signaled in between play no part.
pub proof fn law_cleared_flag_is_news_again(
    shared: SharedModel,
    sint_index: u8,
    flag: u16,
    cleared: u8,
)
    requires
        shared.siefp_page.contents.len() == 4096,
        sint_index < 16,
        sint_index * 256 + flag / 8 < 4096,
        shared.state.enabled,
        shared.state.sint[sint_index as int].bits & 0x1_0000 == 0,
        shared.state.sint[sint_index as int].bits & 0x10_0000 == 0,
        cleared & (1u8 << (flag % 8)) == 0,
    ensures
        shared.after_event(sint_index, flag).with_event_page_write(
            sint_index * 256 + flag / 8,
            seq![cleared],
        ).event_reply(sint_index, flag) == Ok::<bool, SintProxied>(true),
{
}

/// A flag lies beyond the page exactly if its byte, counted from the part of its
/// source on, does.
pub proof fn law_flags_beyond_the_page(sint_index: u8, flag: u16)
    ensures
        flag_offset(sint_index, flag) == sint_index * 256 + flag / 8,
{
}

} // verus!
