//! Laws of the message slots.

use crate::message::lemma_header_read_back;
use crate::message::lemma_message_type;
use crate::message::HvMessage;
use crate::message::HvMessageHeader;
use crate::message::HV_MESSAGE_HEADER_SIZE;
use crate::message::HV_MESSAGE_SIZE;
use crate::message::HV_MESSAGE_TYPE_NONE;
use crate::overlay::overwritten;
use crate::overlay::HV_PAGE_SIZE_USIZE;
use crate::registers::has_sint;
use crate::registers::lemma_has_sint;
use crate::model::ProcessorModel;
use crate::registers::HvError;
use crate::registers::HvRegisterName;
use crate::registers::HvRegisterValue;
use crate::registers::HvSynicSint;
use crate::registers::NUM_SINTS;
use crate::shared::sint_requests;
use crate::sint::SintModel;
use vstd::prelude::*;

verus! {

/// The sources with the message page written at the slot of one of them.
pub open spec fn slot_written(sints: SintModel, sint_index: u8, data: Seq<u8>) -> SintModel {
    SintModel {
        simp_page: sints.simp_page.written(SintModel::slot_offset(sint_index), data),
        ..sints
    }
}

/// A write to one slot reaches no other.
pub proof fn lemma_slot_written(sints: SintModel, sint_index: u8, data: Seq<u8>, other: u8)
    requires
        sints.wf(),
        sint_index < NUM_SINTS,
        other < NUM_SINTS,
        data.len() <= HV_MESSAGE_SIZE,
    ensures
        slot_written(sints, sint_index, data).wf(),
        slot_written(sints, sint_index, data).slot(other) == if other == sint_index {
            overwritten(sints.slot(other), 0, data)
        } else {
            sints.slot(other)
        },
{
    let after = slot_written(sints, sint_index, data).slot(other);
    if other == sint_index {
        assert(after =~= overwritten(sints.slot(other), 0, data));
    } else {
        assert(after =~= sints.slot(other));
    }
}

/// A posted message stands in the slot of its source, byte for byte, and no
/// other slot changes.
pub proof fn law_posted_message_is_in_its_slot(
    sints: SintModel,
    sint_index: u8,
    message: HvMessage,
    other: u8,
)
    requires
        sints.wf(),
        sint_index < NUM_SINTS,
        other < NUM_SINTS,
        sints.post_result(sint_index) is Ok,
    ensures
        sints.after_post(sint_index, message.bytes()).slot(other) == if other == sint_index {
            message.bytes()
        } else {
            sints.slot(other)
        },
        sints.after_post(sint_index, message.bytes()).is_ready(other) == (sints.is_ready(other)
            && other != sint_index),
{
    let bytes = message.bytes();
    lemma_slot_written(sints, sint_index, bytes, other);
    lemma_has_sint(sints.ready_sints, 0, other, sint_index);
    assert(overwritten(sints.slot(other), 0, bytes) =~= bytes);
    assert(sints.after_post(sint_index, bytes).simp_page == slot_written(
        sints,
        sint_index,
        bytes,
    ).simp_page);
    assert(sints.after_post(sint_index, bytes).slot(other) == slot_written(
        sints,
        sint_index,
        bytes,
    ).slot(other));
}

/// A message is refused right after one was accepted for the same source: the
/// slot has to be found free in between.
pub proof fn law_second_message_is_refused(
    sints: SintModel,
    sint_index: u8,
    message: HvMessage,
)
    requires
        sints.wf(),
        sint_index < NUM_SINTS,
        sints.post_result(sint_index) is Ok,
    ensures
        sints.after_post(sint_index, message.bytes()).post_result(sint_index) == Err::<(), HvError>(
            HvError::ObjectInUse,
        ),
{
    lemma_has_sint(sints.ready_sints, 0, sint_index, sint_index);
}

/// A message that is refused changes nothing and asks for no interrupt.
pub proof fn law_refused_message_changes_nothing(
    sints: SintModel,
    sint_index: u8,
    message: HvMessage,
)
    requires
        sints.post_result(sint_index) is Err,
    ensures
        sints.after_post(sint_index, message.bytes()) == sints,
        sints.post_requests(sint_index).len() == 0,
{
}

/// A slot that holds a message is not found ready. Looking at it flags the
/// message, changes nothing else in the slot, and changes nothing at all the
/// second time.
pub proof fn law_full_slot_is_flagged(sints: SintModel, sint_index: u8)
    requires
        sints.wf(),
        sint_index < NUM_SINTS,
        !sints.is_ready(sint_index),
        !sints.slot_is_free(sint_index),
    ensures
        !sints.found_ready(sint_index),
        sints.checked(sint_index).slot(sint_index) == sints.slot(sint_index).update(
            5,
            sints.slot(sint_index)[5] | 1,
        ),
        sints.checked(sint_index).slot_header(sint_index) == sints.slot_header(
            sint_index,
        ).with_message_pending(),
        sints.checked(sint_index).slot_header(sint_index).message_pending(),
        !sints.checked(sint_index).found_ready(sint_index),
        sints.checked(sint_index).checked(sint_index) == sints.checked(sint_index),
{
    let slot = sints.slot(sint_index);
    let header = sints.slot_header(sint_index);
    let head = slot.take(HV_MESSAGE_HEADER_SIZE as int);
    let data = header.with_message_pending().bytes();
    let after = sints.checked(sint_index);
    lemma_header_prefix(slot);
    lemma_header_read_back(head);
    assert(data =~= head.update(5, head[5] | 1));
    lemma_slot_written(sints, sint_index, data, sint_index);
    assert(after =~= slot_written(sints, sint_index, data));
    assert(after.slot(sint_index) =~= slot.update(5, slot[5] | 1));
    assert(forall|i: int|
        0 <= i < 2 ==> after.slot(sint_index).skip(6)[i] == slot.skip(6)[i]);
    assert(forall|i: int|
        0 <= i < 8 ==> after.slot(sint_index).skip(8)[i] == slot.skip(8)[i]);
    assert(after.slot_header(sint_index) == header.with_message_pending());
    let flags = header.flags;
    assert((flags | 1) & 1 != 0 && (flags | 1) | 1 == flags | 1) by (bit_vector);
    let again = after.checked(sint_index);
    assert(again =~= slot_written(after, sint_index, data));
    assert(again.simp_page.contents =~= after.simp_page.contents) by {
        assert forall|i: int| 0 <= i < HV_PAGE_SIZE_USIZE implies again.simp_page.contents[i]
            == after.simp_page.contents[i] by {
            if SintModel::slot_offset(sint_index) <= i < SintModel::slot_offset(sint_index)
                + data.len() {
                assert(after.simp_page.contents[i] == data[i - SintModel::slot_offset(
                    sint_index,
                )]);
            }
        }
    }
    assert(again =~= after);
}

/// A header is read from the first bytes alone.
proof fn lemma_header_prefix(s: Seq<u8>)
    requires
        s.len() >= HV_MESSAGE_HEADER_SIZE,
    ensures
        HvMessageHeader::parsed(s) == HvMessageHeader::parsed(
            s.take(HV_MESSAGE_HEADER_SIZE as int),
        ),
{
    let head = s.take(HV_MESSAGE_HEADER_SIZE as int);
    assert(forall|i: int| 0 <= i < 2 ==> head.skip(6)[i] == s.skip(6)[i]);
    assert(forall|i: int| 0 <= i < 8 ==> head.skip(8)[i] == s.skip(8)[i]);
}

/// The slot of a message that was posted is not found ready until the guest
/// writes to it, if the message has a type.
pub proof fn law_posted_message_fills_its_slot(
    sints: SintModel,
    sint_index: u8,
    message: HvMessage,
)
    requires
        sints.wf(),
        sint_index < NUM_SINTS,
        sints.post_result(sint_index) is Ok,
        message.header.typ != HV_MESSAGE_TYPE_NONE,
    ensures
        !sints.after_post(sint_index, message.bytes()).found_ready(sint_index),
{
    let after = sints.after_post(sint_index, message.bytes());
    law_posted_message_is_in_its_slot(sints, sint_index, message, sint_index);
    assert(after.slot(sint_index).take(HV_MESSAGE_SIZE as int) =~= message.bytes());
    lemma_message_type(message, after.slot(sint_index));
}

/// The guest opens a slot by clearing the type of the message in it.
pub proof fn law_cleared_slot_is_found_ready(sints: SintModel, sint_index: u8)
    requires
        sints.wf(),
        sint_index < NUM_SINTS,
    ensures
        slot_written(sints, sint_index, seq![0u8, 0, 0, 0]).found_ready(sint_index),
{
    lemma_slot_written(sints, sint_index, seq![0u8, 0, 0, 0], sint_index);
    assert(0u32 | 0u32 << 8 | 0u32 << 16 | 0u32 << 24 == 0) by (bit_vector);
}

/// The slots of the sources that are ready are free: what is posted overwrites
/// no message.
pub open spec fn ready_slots_are_free(sints: SintModel) -> bool {
    forall|sint_index: u8|
        sint_index < NUM_SINTS && #[trigger] sints.is_ready(sint_index) ==> sints.slot_is_free(
            sint_index,
        )
}

/// The slots of ready sources are free after a reset.
pub proof fn law_ready_slots_are_free_at_reset()
    ensures
        ready_slots_are_free(SintModel::fresh()),
{
    assert forall|sint_index: u8| sint_index < NUM_SINTS implies !#[trigger] SintModel::fresh().is_ready(
        sint_index,
    ) by {
        lemma_has_sint(0, 0, sint_index, 0);
    }
}

/// Looking at a slot keeps the slots of ready sources free.
pub proof fn law_checks_keep_ready_slots_free(sints: SintModel, sint_index: u8)
    requires
        sints.wf(),
        sint_index < NUM_SINTS,
        ready_slots_are_free(sints),
    ensures
        sints.checked(sint_index).wf(),
        ready_slots_are_free(sints.checked(sint_index)),
{
    let after = sints.checked(sint_index);
    let data = sints.slot_header(sint_index).with_message_pending().bytes();
    assert forall|other: u8| other < NUM_SINTS && #[trigger] after.is_ready(
        other,
    ) implies after.slot_is_free(other) by {
        lemma_has_sint(sints.ready_sints, 0, other, sint_index);
        lemma_slot_written(sints, sint_index, data, other);
        if !sints.is_ready(sint_index) && !sints.slot_is_free(sint_index) {
            assert(after =~= slot_written(sints, sint_index, data));
            assert(sints.is_ready(other));
            assert(other != sint_index);
        } else if sints.is_ready(other) {
            assert(after.slot(other) == sints.slot(other));
        } else {
            assert(other == sint_index);
            assert(after.slot(other) == sints.slot(other));
        }
    }
}

/// Posting a message keeps the slots of ready sources free.
pub proof fn law_posts_keep_ready_slots_free(
    sints: SintModel,
    sint_index: u8,
    message: Seq<u8>,
)
    requires
        sints.wf(),
        sint_index < NUM_SINTS,
        message.len() == HV_MESSAGE_SIZE,
        ready_slots_are_free(sints),
    ensures
        sints.posted(sint_index, message).wf(),
        ready_slots_are_free(sints.posted(sint_index, message)),
        ready_slots_are_free(sints.after_post(sint_index, message)),
{
    let after = sints.posted(sint_index, message);
    assert forall|other: u8| other < NUM_SINTS && #[trigger] after.is_ready(
        other,
    ) implies after.slot_is_free(other) by {
        lemma_has_sint(sints.ready_sints, 0, other, sint_index);
        lemma_slot_written(sints, sint_index, message, other);
        assert(sints.is_ready(other));
        assert(after.slot(other) == slot_written(sints, sint_index, message).slot(other));
    }
}

/// Register writes keep the slots of ready sources free: the message page
/// keeps its contents when it moves.
pub proof fn law_register_writes_keep_ready_slots_free(
    synic: ProcessorModel,
    reg: HvRegisterName,
    v: HvRegisterValue,
    reply: Result<(), HvError>,
)
    requires
        ready_slots_are_free(synic.sints),
    ensures
        ready_slots_are_free(synic.with_register(reg, v, reply).sints),
{
    let before = synic.sints;
    let after = synic.with_register(reg, v, reply).sints;
    assert forall|sint_index: u8| sint_index < NUM_SINTS && #[trigger] after.is_ready(
        sint_index,
    ) implies after.slot_is_free(sint_index) by {
        assert(before.is_ready(sint_index));
        assert(after.slot(sint_index) == before.slot(sint_index));
    }
}

/// A source that is found ready accepts a message, unless it is masked or
/// proxied.
pub proof fn law_ready_source_accepts(sints: SintModel, sint_index: u8)
    requires
        sint_index < NUM_SINTS,
        sints.found_ready(sint_index),
    ensures
        sints.checked(sint_index).is_ready(sint_index),
        sints.checked(sint_index).post_result(sint_index) == if sints.takes_messages(sint_index) {
            Ok(())
        } else {
            Err::<(), HvError>(HvError::InvalidSynicState)
        },
{
    lemma_has_sint(sints.ready_sints, 0, sint_index, sint_index);
}

/// Where the slots of ready sources are free, a full slot refuses messages.
pub proof fn law_full_slot_refuses_messages(sints: SintModel, sint_index: u8)
    requires
        sint_index < NUM_SINTS,
        ready_slots_are_free(sints),
        sints.takes_messages(sint_index),
        !sints.slot_is_free(sint_index),
    ensures
        sints.post_result(sint_index) == Err::<(), HvError>(HvError::ObjectInUse),
{
}

/// A message is accepted only where it overwrites none.
pub proof fn law_no_message_is_overwritten(sints: SintModel, sint_index: u8)
    requires
        sint_index < NUM_SINTS,
        ready_slots_are_free(sints),
        sints.post_result(sint_index) is Ok,
    ensures
        sints.slot_is_free(sint_index),
{
}

/// When a message is accepted, by the bits of the source's register and of the
/// mask of ready sources.
pub proof fn law_post_answers(sints: SintModel, sint_index: u8)
    requires
        sint_index < 16,
    ensures
        ({
            let sint = sints.sint[sint_index as int].bits;
            let closed = sint & 0x1_0000 != 0 || sint & 0x10_0000 != 0;
            let ready = sints.ready_sints & (1u16 << sint_index) != 0;
            &&& sints.post_result(sint_index) is Ok <==> !closed && ready
            &&& closed ==> sints.post_result(sint_index) == Err::<(), HvError>(
                HvError::InvalidSynicState,
            )
            &&& !closed && !ready ==> sints.post_result(sint_index) == Err::<(), HvError>(
                HvError::ObjectInUse,
            )
        }),
{
}

/// A message that is accepted raises exactly one interrupt, with the vector and
/// the end-of-interrupt bit of the source's register, or none if the guest polls
/// the source. Nothing else plays a part, such as what other sources are asked
/// for.
pub proof fn law_post_interrupts(sints: SintModel, sint_index: u8)
    requires
        sint_index < 16,
    ensures
        ({
            let sint = sints.sint[sint_index as int].bits;
            let requests = sints.post_requests(sint_index);
            &&& sints.post_result(sint_index) is Ok && sint & 0x4_0000 == 0 ==> {
                &&& requests.len() == 1
                &&& requests[0].vector == sint & 0xff
                &&& requests[0].auto_eoi <==> sint & 0x2_0000 != 0
            }
            &&& sints.post_result(sint_index) is Err || sint & 0x4_0000 != 0 ==> requests.len() == 0
        }),
{
    let sint = sints.sint[sint_index as int].bits;
    assert(((sint & 0xff) as u8) as u32 == sint & 0xff) by (bit_vector);
}

/// The interrupt of an accepted message depends on the source's register alone.
pub proof fn law_post_interrupts_go_by_the_register(
    sints: SintModel,
    other: SintModel,
    sint_index: u8,
)
    requires
        sint_index < 16,
        sints.sint[sint_index as int] == other.sint[sint_index as int],
        sints.post_result(sint_index) is Ok,
        other.post_result(sint_index) is Ok,
    ensures
        sints.post_requests(sint_index) == other.post_requests(sint_index),
{
}

/// A message that is accepted is in the message page, from byte
/// `sint_index * 256` on, and no other byte of the page changes. The source is no
/// longer ready. Nothing else changes.
pub proof fn law_posted_message_in_the_page(
    sints: SintModel,
    sint_index: u8,
    message: HvMessage,
    i: int,
)
    requires
        sints.simp_page.contents.len() == 4096,
        sint_index < 16,
        sints.post_result(sint_index) is Ok,
        0 <= i < 4096,
    ensures
        ({
            let after = sints.after_post(sint_index, message.bytes());
            &&& after.simp_page.contents.len() == 4096
            &&& after.simp_page.contents[i] == if sint_index * 256 <= i < sint_index * 256 + 256 {
                message.bytes()[i - sint_index * 256]
            } else {
                sints.simp_page.contents[i]
            }
            &&& after.simp_page.gpn == sints.simp_page.gpn
            &&& after.ready_sints == sints.ready_sints & !(1u16 << sint_index)
            &&& after.pending_sints == sints.pending_sints
            &&& after.sint == sints.sint
            &&& after.scontrol == sints.scontrol
            &&& after.simp == sints.simp
            &&& after.siefp == sints.siefp
        }),
{
    assert(message.bytes().len() == 256);
}

/// Four bytes are the number zero exactly if each of them is.
proof fn lemma_zero_type(a: u8, b: u8, c: u8, d: u8)
    ensures
        (a as u32) | (b as u32) << 8 | (c as u32) << 16 | (d as u32) << 24 == 0 <==> a == 0 && b
            == 0 && c == 0 && d == 0,
{
    assert((a as u32) | (b as u32) << 8 | (c as u32) << 16 | (d as u32) << 24 == 0 <==> a == 0 && b
        == 0 && c == 0 && d == 0) by (bit_vector);
}

/// The slot of a source is free if the four bytes of the message type, from byte
/// `sint_index * 256` on, are zero.
pub open spec fn slot_type_is_zero(page: Seq<u8>, sint_index: u8) -> bool {
    let at = sint_index * 256;
    page[at] == 0 && page[at + 1] == 0 && page[at + 2] == 0 && page[at + 3] == 0
}

/// What a look at the slot of a source finds and does. A source is found ready if
/// it was ready, or if the type of the message in its slot is zero, which makes
/// it ready. Otherwise the lowest bit of byte 5 of the slot is set. No other bit
/// of the page or of the mask changes, and nothing else does.
pub proof fn law_look_at_a_slot(sints: SintModel, sint_index: u8, i: int)
    requires
        sints.simp_page.contents.len() == 4096,
        sints.sint.len() == 16,
        sint_index < 16,
        0 <= i < 4096,
    ensures
        ({
            let ready = sints.ready_sints & (1u16 << sint_index) != 0;
            let free = slot_type_is_zero(sints.simp_page.contents, sint_index);
            let after = sints.checked(sint_index);
            &&& sints.found_ready(sint_index) <==> ready || free
            &&& after.simp_page.contents.len() == 4096
            &&& after.simp_page.contents[i] == if !ready && !free && i == sint_index * 256 + 5 {
                sints.simp_page.contents[i] | 1
            } else {
                sints.simp_page.contents[i]
            }
            &&& after.simp_page.gpn == sints.simp_page.gpn
            &&& after.ready_sints == if !ready && free {
                sints.ready_sints | (1u16 << sint_index)
            } else {
                sints.ready_sints
            }
            &&& after.pending_sints == sints.pending_sints
            &&& after.sint == sints.sint
            &&& after.scontrol == sints.scontrol
            &&& after.simp == sints.simp
            &&& after.siefp == sints.siefp
        }),
{
    let page = sints.simp_page.contents;
    let at = sint_index * 256;
    let slot = sints.slot(sint_index);
    assert(forall|k: int| 0 <= k < 256 ==> slot[k] == page[at + k]);
    lemma_zero_type(page[at], page[at + 1], page[at + 2], page[at + 3]);
    if !sints.is_ready(sint_index) && !sints.slot_is_free(sint_index) {
        let header = sints.slot_header(sint_index);
        let head = slot.take(HV_MESSAGE_HEADER_SIZE as int);
        let data = header.with_message_pending().bytes();
        lemma_header_prefix(slot);
        lemma_header_read_back(head);
        assert(data =~= head.update(5, head[5] | 1));
    }
}

/// What a delivery through a source asks for goes by the bits of its register:
/// one interrupt, with its vector and its end-of-interrupt bit, or none if the
/// guest polls it.
pub proof fn law_source_interrupts(sint: HvSynicSint)
    ensures
        sint.bits & 0x4_0000 != 0 ==> sint_requests(sint).len() == 0,
        sint.bits & 0x4_0000 == 0 ==> {
            &&& sint_requests(sint).len() == 1
            &&& sint_requests(sint)[0].vector == sint.bits & 0xff
            &&& sint_requests(sint)[0].auto_eoi <==> sint.bits & 0x2_0000 != 0
        },
{
    let bits = sint.bits;
    assert(((bits & 0xff) as u8) as u32 == bits & 0xff) by (bit_vector);
}

/// A request for readiness is refused exactly if bit 20 is set in the register of
/// one of the sources in it.
pub proof fn law_proxied_sources_cannot_be_asked_for(sints: SintModel, asked: u16)
    ensures
        sints.any_proxied(asked) <==> exists|sint_index: u8|
            sint_index < 16 && asked & (1u16 << sint_index) != 0 && #[trigger] sints.sint[
                sint_index as int
            ].bits & 0x10_0000 != 0,
{
    if sints.any_proxied(asked) {
        let s = choose|s: u8|
            s < NUM_SINTS && #[trigger] has_sint(asked, s) && sints.sint[s as int].proxy();
        assert(sints.sint[s as int].bits & 0x10_0000 != 0);
    }
    if exists|s: u8|
        s < 16 && asked & (1u16 << s) != 0 && #[trigger] sints.sint[s as int].bits & 0x10_0000
            != 0 {
        let s = choose|s: u8|
            s < 16 && asked & (1u16 << s) != 0 && #[trigger] sints.sint[s as int].bits & 0x10_0000
                != 0;
        assert(has_sint(asked, s));
    }
}

/// Where the type of the message in a slot lies in the page.
pub proof fn law_slot_types(page: Seq<u8>, sint_index: u8)
    ensures
        slot_type_is_zero(page, sint_index) <==> forall|k: int|
            0 <= k < 4 ==> #[trigger] page[256 * sint_index + k] == 0,
{
    if forall|k: int| 0 <= k < 4 ==> #[trigger] page[256 * sint_index + k] == 0 {
        assert(page[256 * sint_index + 0] == 0);
        assert(page[256 * sint_index + 1] == 0);
        assert(page[256 * sint_index + 2] == 0);
        assert(page[256 * sint_index + 3] == 0);
    }
}

} // verus!
