//! Laws of the layouts: which bits and bytes mean what, in numbers.

use crate::message::HvMessage;
use crate::message::HvMessageHeader;
use crate::message::TimerMessagePayload;
use crate::message::HV_MESSAGE_HEADER_SIZE;
use crate::message::HV_MESSAGE_PAYLOAD_SIZE;
use crate::message::HV_MESSAGE_SIZE;
use crate::message::HV_MESSAGE_TYPE_NONE;
use crate::message::HV_MESSAGE_TYPE_TIMER_EXPIRED;
use crate::overlay::HV_PAGE_SIZE_USIZE;
use crate::registers::has_sint;
use crate::registers::HvRegisterValue;
use crate::registers::HvRegisterVsmVina;
use crate::registers::HvSynicScontrol;
use crate::registers::HvSynicSimpSiefp;
use crate::registers::HvSynicSint;
use crate::registers::HvSynicStimerConfig;
use crate::registers::HV_SYNIC_INTERCEPTION_SINT_INDEX;
use crate::registers::NUM_SINTS;
use crate::registers::NUM_TIMERS;
use crate::shared::EventPage;
use crate::shared::SharedProcessorState;
use crate::shared::MASKED_SINT_BITS;
use crate::sint::SintState;
use crate::timer::expiration_message;
use vstd::prelude::*;

verus! {

/// The sizes that the guest relies on: sixteen sources, each with a slot of 256
/// bytes in the message page, and four timers.
pub proof fn law_sizes()
    ensures
        NUM_SINTS == 16,
        NUM_TIMERS == 4,
        HV_PAGE_SIZE_USIZE == NUM_SINTS * HV_MESSAGE_SIZE,
        HV_MESSAGE_SIZE == 256,
        HV_MESSAGE_SIZE == HV_MESSAGE_HEADER_SIZE + HV_MESSAGE_PAYLOAD_SIZE,
        HV_MESSAGE_HEADER_SIZE == 16,
        HV_MESSAGE_TYPE_NONE == 0,
        HV_MESSAGE_TYPE_TIMER_EXPIRED == 0x8000_0010,
        HV_SYNIC_INTERCEPTION_SINT_INDEX == 0,
        MASKED_SINT_BITS == 0x1_0000,
{
}

/// The fields of a source register.
pub proof fn law_sint_layout(sint: HvSynicSint)
    ensures
        sint.vector() == sint.bits % 256,
        sint.masked() <==> sint.bits / 0x1_0000 % 2 == 1,
        sint.auto_eoi() <==> sint.bits / 0x2_0000 % 2 == 1,
        sint.polling() <==> sint.bits / 0x4_0000 % 2 == 1,
        sint.proxy() <==> sint.bits / 0x10_0000 % 2 == 1,
{
    let v = sint.bits;
    assert((v & 0xff) as u8 == v % 256 && (v & 0x1_0000 != 0) == (v / 0x1_0000 % 2 == 1) && (v
        & 0x2_0000 != 0) == (v / 0x2_0000 % 2 == 1) && (v & 0x4_0000 != 0) == (v / 0x4_0000 % 2
        == 1) && (v & 0x10_0000 != 0) == (v / 0x10_0000 % 2 == 1)) by (bit_vector);
}

/// The fields of a timer's configuration register.
pub proof fn law_stimer_config_layout(config: HvSynicStimerConfig)
    ensures
        config.enabled() <==> config.bits % 2 == 1,
        config.periodic() <==> config.bits / 2 % 2 == 1,
        config.auto_enable() <==> config.bits / 8 % 2 == 1,
        config.apic_vector() == config.bits / 16 % 256,
        config.direct_mode() <==> config.bits / 0x1000 % 2 == 1,
        config.sint() == config.bits / 0x1_0000 % 16,
        config.with_enabled(true).bits == config.bits - config.bits % 2 + 1,
        config.with_enabled(false).bits == config.bits - config.bits % 2,
{
    let v = config.bits;
    assert((v & 1 != 0) == (v % 2 == 1) && (v & 2 != 0) == (v / 2 % 2 == 1) && (v & 8 != 0) == (v
        / 8 % 2 == 1) && ((v >> 4) & 0xff) as u8 == v / 16 % 256 && (v & 0x1000 != 0) == (v / 0x1000
        % 2 == 1) && ((v >> 16) & 0xf) as u8 == v / 0x1_0000 % 16 && v | 1 == v - v % 2 + 1 && v
        & !1u64 == v - v % 2) by (bit_vector);
}

/// The fields of the page registers, of the control register and of the
/// notification register, and the half of a register value that is used.
pub proof fn law_other_layouts(
    page: HvSynicSimpSiefp,
    scontrol: HvSynicScontrol,
    vina: HvRegisterVsmVina,
    value: HvRegisterValue,
)
    ensures
        page.enabled() <==> page.bits % 2 == 1,
        page.base_gpn() == page.bits / 4096,
        scontrol.enabled() <==> scontrol.bits % 2 == 1,
        vina.reserved() == vina.bits / 2048,
        value.as_u64() == value.bits % 0x1_0000_0000_0000_0000,
{
    assert(forall|v: u64|
        #![auto]
        (v & 1 != 0) == (v % 2 == 1) && v >> 12 == v / 4096 && v >> 11 == v / 2048) by (bit_vector);
    let wide = value.bits;
    assert((wide & 0xffff_ffff_ffff_ffff) as u64 == wide % 0x1_0000_0000_0000_0000) by (bit_vector);
}

/// The source `sint` is the bit of that number in a mask.
pub proof fn law_mask_layout(mask: u16, sint: u8)
    requires
        sint < 16,
    ensures
        has_sint(mask, sint) <==> (mask >> sint) % 2 == 1,
{
    assert((mask & (1u16 << sint) != 0) == ((mask >> sint) % 2 == 1)) by (bit_vector)
        requires
            sint < 16,
    ;
}

/// The number whose bytes are the `len` from `at` on, the least significant
/// first.
pub open spec fn le_value(s: Seq<u8>, at: int, len: nat) -> nat
    decreases len,
{
    if len == 0 {
        0
    } else {
        s[at] as nat + 256 * le_value(s, at + 1, (len - 1) as nat)
    }
}

/// Four bytes of a sequence that hold `v`.
proof fn lemma_le_value4(s: Seq<u8>, at: int, v: u32)
    requires
        s[at] == (v & 0xff) as u8,
        s[at + 1] == ((v >> 8) & 0xff) as u8,
        s[at + 2] == ((v >> 16) & 0xff) as u8,
        s[at + 3] == ((v >> 24) & 0xff) as u8,
    ensures
        le_value(s, at, 4) == v,
{
    reveal_with_fuel(le_value, 5);
    assert(v == ((v & 0xff) as u8) + 256 * (v >> 8) && v >> 8 == (((v >> 8) & 0xff) as u8) + 256 * (v
        >> 16) && v >> 16 == (((v >> 16) & 0xff) as u8) + 256 * (v >> 24) && v >> 24 == (((v >> 24)
        & 0xff) as u8)) by (bit_vector);
}

/// Eight bytes of a sequence that hold `v`.
proof fn lemma_le_value8(s: Seq<u8>, at: int, v: u64)
    requires
        s[at] == (v & 0xff) as u8,
        s[at + 1] == ((v >> 8) & 0xff) as u8,
        s[at + 2] == ((v >> 16) & 0xff) as u8,
        s[at + 3] == ((v >> 24) & 0xff) as u8,
        s[at + 4] == ((v >> 32) & 0xff) as u8,
        s[at + 5] == ((v >> 40) & 0xff) as u8,
        s[at + 6] == ((v >> 48) & 0xff) as u8,
        s[at + 7] == ((v >> 56) & 0xff) as u8,
    ensures
        le_value(s, at, 8) == v,
{
    reveal_with_fuel(le_value, 9);
    assert(v == ((v & 0xff) as u8) + 256 * (v >> 8) && v >> 8 == (((v >> 8) & 0xff) as u8) + 256 * (v
        >> 16) && v >> 16 == (((v >> 16) & 0xff) as u8) + 256 * (v >> 24) && v >> 24 == (((v >> 24)
        & 0xff) as u8) + 256 * (v >> 32) && v >> 32 == (((v >> 32) & 0xff) as u8) + 256 * (v >> 40)
        && v >> 40 == (((v >> 40) & 0xff) as u8) + 256 * (v >> 48) && v >> 48 == (((v >> 48)
        & 0xff) as u8) + 256 * (v >> 56) && v >> 56 == (((v >> 56) & 0xff) as u8)) by (bit_vector);
}

/// The bytes of a message: type, length, flags and origin, then the payload.
pub proof fn law_message_layout(message: HvMessage)
    ensures
        message.bytes().len() == 256,
        le_value(message.bytes(), 0, 4) == message.header.typ,
        message.bytes()[4] == message.header.len,
        message.bytes()[5] == message.header.flags,
        le_value(message.bytes(), 6, 2) == message.header.rsvd,
        le_value(message.bytes(), 8, 8) == message.header.id,
        forall|i: int|
            0 <= i < 240 ==> #[trigger] message.bytes()[16 + i] == message.payload_buffer@[i],
{
    let b = message.bytes();
    let h = message.header;
    assert(h.bytes().len() == 16);
    assert(forall|i: int| 0 <= i < 16 ==> b[i] == h.bytes()[i]);
    lemma_le_value4(b, 0, h.typ);
    lemma_le_value8(b, 8, h.id);
    reveal_with_fuel(le_value, 3);
    let rsvd = h.rsvd;
    assert(rsvd == ((rsvd & 0xff) as u8) + 256 * (((rsvd >> 8) & 0xff) as u8)) by (bit_vector);
}

/// A header is read from the bytes that a message with it begins with.
pub proof fn law_header_layout(s: Seq<u8>)
    requires
        s.len() >= 16,
    ensures
        ({
            let header = HvMessageHeader::parsed(s);
            &&& header.typ == le_value(s, 0, 4)
            &&& header.len == s[4]
            &&& header.flags == s[5]
            &&& header.rsvd == le_value(s, 6, 2)
            &&& header.id == le_value(s, 8, 8)
        }),
{
    let header = HvMessageHeader::parsed(s);
    let head = s.take(16);
    assert(forall|i: int| 0 <= i < 2 ==> head.skip(6)[i] == s.skip(6)[i]);
    assert(forall|i: int| 0 <= i < 8 ==> head.skip(8)[i] == s.skip(8)[i]);
    assert(HvMessageHeader::parsed(head) == header);
    crate::message::lemma_header_read_back(head);
    assert(header.bytes() == head);
    assert(forall|i: int| 0 <= i < 16 ==> s[i] == header.bytes()[i]);
    lemma_le_value4(s, 0, header.typ);
    lemma_le_value8(s, 8, header.id);
    reveal_with_fuel(le_value, 3);
    let rsvd = header.rsvd;
    assert(rsvd == ((rsvd & 0xff) as u8) + 256 * (((rsvd >> 8) & 0xff) as u8)) by (bit_vector);
}

/// The bytes of a timer's message: of the type of expirations, with 24 bytes of
/// payload, which are the timer's number, when it was due, and when it was
/// delivered. All else is zero.
pub proof fn law_expiration_message_layout(timer_index: u32, due_time: u64, now: u64)
    ensures
        ({
            let b = expiration_message(timer_index, due_time, now);
            &&& b.len() == 256
            &&& le_value(b, 0, 4) == 0x8000_0010
            &&& b[4] == 24
            &&& forall|i: int| 5 <= i < 16 ==> #[trigger] b[i] == 0
            &&& le_value(b, 16, 4) == timer_index
            &&& forall|i: int| 20 <= i < 24 ==> #[trigger] b[i] == 0
            &&& le_value(b, 24, 8) == due_time
            &&& le_value(b, 32, 8) == now
            &&& forall|i: int| 40 <= i < 256 ==> #[trigger] b[i] == 0
        }),
{
    let b = expiration_message(timer_index, due_time, now);
    assert((0u16 & 0xff) as u8 == 0 && ((0u16 >> 8) & 0xff) as u8 == 0 && (0u32 & 0xff) as u8 == 0
        && ((0u32 >> 8) & 0xff) as u8 == 0 && ((0u32 >> 16) & 0xff) as u8 == 0 && ((0u32 >> 24)
        & 0xff) as u8 == 0) by (bit_vector);
    assert((0u64 & 0xff) as u8 == 0 && ((0u64 >> 8) & 0xff) as u8 == 0 && ((0u64 >> 16)
        & 0xff) as u8 == 0 && ((0u64 >> 24) & 0xff) as u8 == 0 && ((0u64 >> 32) & 0xff) as u8 == 0
        && ((0u64 >> 40) & 0xff) as u8 == 0 && ((0u64 >> 48) & 0xff) as u8 == 0 && ((0u64 >> 56)
        & 0xff) as u8 == 0) by (bit_vector);
    lemma_le_value4(b, 0, HV_MESSAGE_TYPE_TIMER_EXPIRED);
    lemma_le_value4(b, 16, timer_index);
    lemma_le_value8(b, 24, due_time);
    lemma_le_value8(b, 32, now);
}

/// The models hold what the states hold.
pub proof fn law_models_show_the_state(
    sints: SintState,
    state: SharedProcessorState,
    page: EventPage,
)
    ensures
        sints@.siefp == sints.siefp,
        sints@.simp == sints.simp,
        sints@.scontrol == sints.scontrol,
        sints@.sint == sints.sint@,
        sints@.pending_sints == sints.pending_sints,
        sints@.ready_sints == sints.ready_sints,
        sints@.simp_page.contents == sints.simp_page.contents@,
        sints@.simp_page.gpn == sints.simp_page.gpn,
        state@.index == state.index,
        state@.online == state.online,
        state@.enabled == state.enabled,
        state@.sint == state.sint@,
        page@.index == page.index,
        page@.page.contents == page.page.contents@,
        page@.page.gpn == page.page.gpn,
{
}

/// The bytes of the payload of a timer's message: the timer's number, four bytes
/// that are reserved, when it was due, and when it was delivered.
pub proof fn law_payload_layout(payload: TimerMessagePayload)
    ensures
        payload.bytes().len() == 24,
        le_value(payload.bytes(), 0, 4) == payload.timer_index,
        le_value(payload.bytes(), 4, 4) == payload.reserved,
        le_value(payload.bytes(), 8, 8) == payload.expiration_time,
        le_value(payload.bytes(), 16, 8) == payload.delivery_time,
{
    let b = payload.bytes();
    lemma_le_value4(b, 0, payload.timer_index);
    lemma_le_value4(b, 4, payload.reserved);
    lemma_le_value8(b, 8, payload.expiration_time);
    lemma_le_value8(b, 16, payload.delivery_time);
}

/// The value of bytes: each weighs 256 times the one before.
pub proof fn law_le_values(s: Seq<u8>, at: int, len: nat)
    ensures
        le_value(s, at, 1) == s[at],
        le_value(s, at, 2) == s[at] + 0x100 * s[at + 1],
        le_value(s, at, 4) == s[at] + 0x100 * s[at + 1] + 0x1_0000 * s[at + 2] + 0x100_0000 * s[at
            + 3],
        le_value(s, at, 8) == le_value(s, at, 4) + 0x1_0000_0000 * le_value(s, at + 4, 4),
        le_value(s, at, len + 1) == s[at] + 256 * le_value(s, at + 1, len),
{
    reveal_with_fuel(le_value, 9);
}

} // verus!
