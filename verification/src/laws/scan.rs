//! Laws of the scan for sources that wait for a free slot.

use crate::laws::messages::law_checks_keep_ready_slots_free;
use crate::laws::messages::law_look_at_a_slot;
use crate::laws::messages::law_slot_types;
use crate::laws::messages::law_posts_keep_ready_slots_free;
use crate::laws::messages::lemma_slot_written;
use crate::laws::messages::ready_slots_are_free;
use crate::laws::messages::slot_type_is_zero;
use crate::laws::messages::slot_written;
use crate::laws::registers::in_step;
use crate::laws::timers::due_time;
use crate::laws::timers::has_expired;
use crate::laws::timers::is_later;
use crate::laws::timers::law_direct_timer_raises_its_vector;
use crate::laws::timers::law_scan_evaluates_each_timer;
use crate::laws::timers::law_scan_returns_earliest_time;
use crate::laws::timers::law_timer_that_is_not_due;
use crate::model::timers_evaluated;
use crate::model::ProcessorModel;
use crate::registers::has_sint;
use crate::registers::lemma_has_sint;
use crate::registers::lemma_timer_sint_in_range;
use crate::registers::NUM_SINTS;
use crate::registers::NUM_TIMERS;
use crate::shared::SharedModel;
use crate::sint::SintModel;
use crate::timer::expiration_message;
use crate::timer::Timer;
use vstd::prelude::*;

verus! {

/// `after` has the registers of `before`, asks for the same sources, and its
/// page lies where it lay.
pub open spec fn same_registers(before: SintModel, after: SintModel) -> bool {
    &&& after.siefp == before.siefp
    &&& after.simp == before.simp
    &&& after.scontrol == before.scontrol
    &&& after.sint == before.sint
    &&& after.pending_sints == before.pending_sints
    &&& after.simp_page.gpn == before.simp_page.gpn
    &&& after.simp_page.contents.len() == before.simp_page.contents.len()
}

/// What a look at one slot does to another source.
proof fn lemma_checked(sints: SintModel, sint_index: u8, other: u8)
    requires
        sints.wf(),
        sint_index < NUM_SINTS,
        other < NUM_SINTS,
    ensures
        same_registers(sints, sints.checked(sint_index)),
        other != sint_index ==> sints.checked(sint_index).slot(other) == sints.slot(other),
        sints.checked(sint_index).is_ready(other) == (sints.is_ready(other) || (other == sint_index
            && sints.slot_is_free(other))),
{
    let data = sints.slot_header(sint_index).with_message_pending().bytes();
    lemma_has_sint(sints.ready_sints, 0, other, sint_index);
    lemma_slot_written(sints, sint_index, data, other);
    if !sints.is_ready(sint_index) && !sints.slot_is_free(sint_index) {
        assert(sints.checked(sint_index) =~= slot_written(sints, sint_index, data));
    } else {
        assert(sints.checked(sint_index).slot(other) == sints.slot(other));
    }
}

/// What looks at the pending ones among the first `count` slots do to a source.
proof fn lemma_pending_checked(sints: SintModel, count: nat, sint_index: u8)
    requires
        sints.wf(),
        count <= NUM_SINTS,
        sint_index < NUM_SINTS,
    ensures
        same_registers(sints, sints.pending_checked(count)),
        sint_index >= count ==> sints.pending_checked(count).slot(sint_index) == sints.slot(
            sint_index,
        ),
        sints.pending_checked(count).is_ready(sint_index) == (sints.is_ready(sint_index) || (
        sint_index < count && sints.is_pending(sint_index) && sints.slot_is_free(sint_index))),
    decreases count,
{
    if count > 0 {
        let last = (count - 1) as u8;
        let before = sints.pending_checked((count - 1) as nat);
        lemma_pending_checked(sints, (count - 1) as nat, sint_index);
        lemma_pending_checked(sints, (count - 1) as nat, last);
        lemma_checked(before, last, sint_index);
    }
}

/// A message for a timer fills a slot.
proof fn lemma_expiration_message(timer_index: u32, due_time: u64, now: u64)
    ensures
        expiration_message(timer_index, due_time, now).len() == crate::message::HV_MESSAGE_SIZE,
{
}

/// What the evaluation of a timer does to the sources: it keeps the registers,
/// and does not touch the readiness of a source that is asked for.
proof fn lemma_timer_leaves_pending_sints(
    timer: Timer,
    timer_index: u32,
    sints: SintModel,
    now: u64,
    sint_index: u8,
)
    requires
        sints.wf(),
        sint_index < NUM_SINTS,
    ensures
        same_registers(sints, timer.evaluated(timer_index, sints, now).sints),
        sints.is_pending(sint_index) ==> timer.evaluated(timer_index, sints, now).sints.is_ready(
            sint_index,
        ) == sints.is_ready(sint_index),
        ready_slots_are_free(sints) ==> ready_slots_are_free(
            timer.evaluated(timer_index, sints, now).sints,
        ),
{
    let armed = timer.armed(now);
    let target = armed.config.sint();
    lemma_timer_sint_in_range(armed.config);
    let checked = sints.checked(target);
    lemma_checked(sints, target, sint_index);
    lemma_has_sint(checked.ready_sints, 0, sint_index, target);
    if armed.due_time is Some {
        let message = expiration_message(timer_index, armed.due_time->0, now);
        lemma_expiration_message(timer_index, armed.due_time->0, now);
        if ready_slots_are_free(sints) {
            law_checks_keep_ready_slots_free(sints, target);
            law_posts_keep_ready_slots_free(checked, target, message);
        }
    }
}

proof fn lemma_timers_leave_pending_sints(
    timers: Seq<Timer>,
    sints: SintModel,
    now: u64,
    count: nat,
    sint_index: u8,
)
    requires
        sints.wf(),
        sint_index < NUM_SINTS,
    ensures
        same_registers(sints, timers_evaluated(timers, sints, now, count).sints),
        sints.is_pending(sint_index) ==> timers_evaluated(
            timers,
            sints,
            now,
            count,
        ).sints.is_ready(sint_index) == sints.is_ready(sint_index),
        ready_slots_are_free(sints) ==> ready_slots_are_free(
            timers_evaluated(timers, sints, now, count).sints,
        ),
    decreases count,
{
    if count > 0 {
        let before = timers_evaluated(timers, sints, now, (count - 1) as nat);
        lemma_timers_leave_pending_sints(timers, sints, now, (count - 1) as nat, sint_index);
        lemma_timer_leaves_pending_sints(
            timers[count - 1],
            (count - 1) as u32,
            before.sints,
            now,
            sint_index,
        );
    }
}

/// A scan reports exactly the sources that were asked for and whose slot is
/// free, and asks no longer for those. The others that were asked for are
/// still asked for.
pub proof fn law_scan_reports_free_sources(synic: ProcessorModel, now: u64, sint_index: u8)
    requires
        synic.wf(),
        sint_index < NUM_SINTS,
    ensures
        has_sint(synic.scan_ready(now), sint_index) == (synic.sints.is_pending(sint_index)
            && synic.sints.found_ready(sint_index)),
        synic.scanned(now).sints.is_pending(sint_index) == (synic.sints.is_pending(sint_index)
            && !synic.sints.found_ready(sint_index)),
        has_sint(synic.scan_ready(now), sint_index) ==> synic.scanned(now).sints.is_ready(
            sint_index,
        ),
{
    let checked = synic.sints.pending_checked(NUM_SINTS as nat);
    let after = synic.scanned_timers(now).sints;
    lemma_pending_checked(synic.sints, NUM_SINTS as nat, sint_index);
    lemma_timers_leave_pending_sints(synic.timers, checked, now, NUM_TIMERS as nat, sint_index);
    lemma_has_sint(after.ready_sints, after.pending_sints, sint_index, sint_index);
    lemma_has_sint(after.pending_sints, synic.scan_ready(now), sint_index, sint_index);
}

/// A source that a scan reported can be posted to at once, if it takes
/// messages.
pub proof fn law_reported_source_takes_a_message(synic: ProcessorModel, now: u64, sint_index: u8)
    requires
        synic.wf(),
        sint_index < NUM_SINTS,
        has_sint(synic.scan_ready(now), sint_index),
        synic.sints.takes_messages(sint_index),
    ensures
        synic.scanned(now).sints.post_result(sint_index) is Ok,
{
    let checked = synic.sints.pending_checked(NUM_SINTS as nat);
    law_scan_reports_free_sources(synic, now, sint_index);
    lemma_pending_checked(synic.sints, NUM_SINTS as nat, sint_index);
    lemma_timers_leave_pending_sints(synic.timers, checked, now, NUM_TIMERS as nat, sint_index);
}

/// A scan keeps the registers, the place of the page and what is in step.
pub proof fn law_scan_keeps_registers(synic: ProcessorModel, shared: SharedModel, now: u64)
    requires
        synic.wf(),
    ensures
        synic.scanned(now).wf(),
        same_registers(
            synic.sints,
            SintModel {
                pending_sints: synic.sints.pending_sints,
                ..synic.scanned(now).sints
            },
        ),
        synic.scanned(now).vina == synic.vina,
        in_step(synic, shared) ==> in_step(synic.scanned(now), shared),
{
    let checked = synic.sints.pending_checked(NUM_SINTS as nat);
    lemma_pending_checked(synic.sints, NUM_SINTS as nat, 0);
    lemma_timers_leave_pending_sints(synic.timers, checked, now, NUM_TIMERS as nat, 0);
    crate::laws::timers::law_scan_evaluates_each_timer(synic, now, 0);
}

/// A source that was reported is not reported again before it is asked for
/// again.
pub proof fn law_source_is_reported_once(
    synic: ProcessorModel,
    now: u64,
    later: u64,
    sint_index: u8,
)
    requires
        synic.wf(),
        sint_index < NUM_SINTS,
        has_sint(synic.scan_ready(now), sint_index),
    ensures
        !has_sint(synic.scanned(now).scan_ready(later), sint_index),
{
    law_scan_reports_free_sources(synic, now, sint_index);
    law_scan_keeps_registers(synic, SharedModel::at_reset(0), now);
    law_scan_reports_free_sources(synic.scanned(now), later, sint_index);
}

/// A scan keeps the slots of ready sources free: it overwrites no message.
pub proof fn law_scan_keeps_ready_slots_free(synic: ProcessorModel, now: u64)
    requires
        synic.wf(),
        ready_slots_are_free(synic.sints),
    ensures
        ready_slots_are_free(synic.scanned(now).sints),
{
    let checked = synic.sints.pending_checked(NUM_SINTS as nat);
    lemma_pending_keeps_ready_slots_free(synic.sints, NUM_SINTS as nat);
    lemma_timers_leave_pending_sints(synic.timers, checked, now, NUM_TIMERS as nat, 0);
    let sints = synic.scanned_timers(now).sints;
    let after = synic.scanned(now).sints;
    assert forall|sint_index: u8| sint_index < NUM_SINTS && #[trigger] after.is_ready(
        sint_index,
    ) implies after.slot_is_free(sint_index) by {
        assert(sints.is_ready(sint_index));
        assert(after.slot(sint_index) == sints.slot(sint_index));
    }
}

proof fn lemma_pending_keeps_ready_slots_free(sints: SintModel, count: nat)
    requires
        sints.wf(),
        count <= NUM_SINTS,
        ready_slots_are_free(sints),
    ensures
        sints.pending_checked(count).wf(),
        ready_slots_are_free(sints.pending_checked(count)),
    decreases count,
{
    if count > 0 {
        lemma_pending_keeps_ready_slots_free(sints, (count - 1) as nat);
        law_checks_keep_ready_slots_free(
            sints.pending_checked((count - 1) as nat),
            (count - 1) as u8,
        );
    }
}

/// A source is asked for, not ready, and its slot full.
pub open spec fn waits_for_its_slot(sints: SintModel, sint_index: u8) -> bool {
    &&& sints.pending_sints & (1u16 << sint_index) != 0
    &&& sints.ready_sints & (1u16 << sint_index) == 0
    &&& !slot_type_is_zero(sints.simp_page.contents, sint_index)
}

/// What looks at the first `count` slots do to one byte of the page and to one
/// source.
proof fn lemma_pending_looks(sints: SintModel, count: nat, sint_index: u8, i: int)
    requires
        sints.simp_page.contents.len() == 4096,
        sints.sint.len() == 16,
        count <= 16,
        sint_index < 16,
        0 <= i < 4096,
    ensures
        ({
            let after = sints.pending_checked(count);
            &&& after.simp_page.contents.len() == 4096
            &&& after.simp_page.contents[i] == if i % 256 == 5 && i / 256 < count
                && waits_for_its_slot(sints, (i / 256) as u8) {
                sints.simp_page.contents[i] | 1
            } else {
                sints.simp_page.contents[i]
            }
            &&& after.simp_page.gpn == sints.simp_page.gpn
            &&& after.ready_sints & (1u16 << sint_index) != 0 <==> sints.ready_sints & (1u16
                << sint_index) != 0 || sint_index < count && sints.pending_sints & (1u16
                << sint_index) != 0 && slot_type_is_zero(sints.simp_page.contents, sint_index)
            &&& after.pending_sints == sints.pending_sints
            &&& after.sint == sints.sint
            &&& after.scontrol == sints.scontrol
            &&& after.simp == sints.simp
            &&& after.siefp == sints.siefp
        }),
    decreases count,
{
    if count > 0 {
        let last = (count - 1) as u8;
        let at = last * 256;
        let before = sints.pending_checked((count - 1) as nat);
        lemma_pending_looks(sints, (count - 1) as nat, sint_index, i);
        lemma_pending_looks(sints, (count - 1) as nat, last, at);
        lemma_pending_looks(sints, (count - 1) as nat, last, at + 1);
        lemma_pending_looks(sints, (count - 1) as nat, last, at + 2);
        lemma_pending_looks(sints, (count - 1) as nat, last, at + 3);
        law_look_at_a_slot(before, last, i);
        lemma_has_sint(before.ready_sints, 0, sint_index, last);
    }
}

/// What a scan does before it comes to the timers: it looks at the slots of the
/// sources that are asked for. Those that are free make their sources ready. In
/// those that are full and whose source is not ready, the lowest bit of byte 5 is
/// set. No other byte of the page, no other source and no register changes.
pub proof fn law_scan_looks_at_the_slots(sints: SintModel, sint_index: u8, i: int)
    requires
        sints.simp_page.contents.len() == 4096,
        sints.sint.len() == 16,
        sint_index < 16,
        0 <= i < 4096,
    ensures
        ({
            let after = sints.pending_checked(16);
            &&& after.simp_page.contents.len() == 4096
            &&& after.simp_page.contents[i] == if i % 256 == 5 && waits_for_its_slot(
                sints,
                (i / 256) as u8,
            ) {
                sints.simp_page.contents[i] | 1
            } else {
                sints.simp_page.contents[i]
            }
            &&& after.simp_page.gpn == sints.simp_page.gpn
            &&& after.ready_sints & (1u16 << sint_index) != 0 <==> sints.ready_sints & (1u16
                << sint_index) != 0 || sints.pending_sints & (1u16 << sint_index) != 0
                && slot_type_is_zero(sints.simp_page.contents, sint_index)
            &&& after.pending_sints == sints.pending_sints
            &&& after.sint == sints.sint
            &&& after.scontrol == sints.scontrol
            &&& after.simp == sints.simp
            &&& after.siefp == sints.siefp
        }),
{
    lemma_pending_looks(sints, 16, sint_index, i);
}

/// A scan evaluates the four timers in turn, each under its own number, at the
/// same time, and on the sources as the one before left them, the first on those
/// whose slots were looked at. What it asks for is what they ask for, in that
/// order, and what it returns is the least of the times that they return.
pub proof fn law_scan_evaluates_the_timers_in_turn(synic: ProcessorModel, now: u64)
    requires
        synic.timers.len() == 4,
    ensures
        ({
            let a = synic.timers[0].evaluated(0, synic.sints.pending_checked(16), now);
            let b = synic.timers[1].evaluated(1, a.sints, now);
            let c = synic.timers[2].evaluated(2, b.sints, now);
            let d = synic.timers[3].evaluated(3, c.sints, now);
            let next = synic.scanned_timers(now).next;
            &&& synic.scanned(now).timers == seq![a.timer, b.timer, c.timer, d.timer]
            &&& synic.scanned(now).sints == (SintModel {
                pending_sints: synic.scanned(now).sints.pending_sints,
                ..d.sints
            })
            &&& synic.scanned(now).vina == synic.vina
            &&& synic.scan_ready(now) == d.sints.ready_sints & d.sints.pending_sints
            &&& synic.scanned(now).sints.pending_sints == d.sints.pending_sints & !(
            d.sints.ready_sints & d.sints.pending_sints)
            &&& synic.scanned_timers(now).requests == a.requests + b.requests + c.requests
                + d.requests
            &&& next is None <==> a.next is None && b.next is None && c.next is None && d.next is None
            &&& next is Some ==> next == a.next || next == b.next || next == c.next || next
                == d.next
            &&& a.next is Some ==> next->0 <= a.next->0
            &&& b.next is Some ==> next->0 <= b.next->0
            &&& c.next is Some ==> next->0 <= c.next->0
            &&& d.next is Some ==> next->0 <= d.next->0
        }),
{
    reveal_with_fuel(timers_evaluated, 5);
    let outcome = synic.scanned_timers(now);
    let a = synic.timers[0].evaluated(0, synic.sints.pending_checked(16), now);
    let b = synic.timers[1].evaluated(1, a.sints, now);
    let c = synic.timers[2].evaluated(2, b.sints, now);
    let d = synic.timers[3].evaluated(3, c.sints, now);
    assert(outcome.timers =~= seq![a.timer, b.timer, c.timer, d.timer]);
    assert(outcome.requests =~= a.requests + b.requests + c.requests + d.requests);
}

/// A scan reports a source exactly if it is asked for, and was ready or has a
/// slot whose message type is zero. Those are no longer asked for; all others
/// stay as they were.
pub proof fn law_scan_report(synic: ProcessorModel, now: u64, sint_index: u8)
    requires
        synic.sints.simp_page.contents.len() == 4096,
        synic.sints.sint.len() == 16,
        synic.timers.len() == 4,
        sint_index < 16,
    ensures
        ({
            let sints = synic.sints;
            let asked = sints.pending_sints & (1u16 << sint_index) != 0;
            let free = sints.ready_sints & (1u16 << sint_index) != 0 || slot_type_is_zero(
                sints.simp_page.contents,
                sint_index,
            );
            &&& synic.scan_ready(now) & (1u16 << sint_index) != 0 <==> asked && free
            &&& synic.scanned(now).sints.pending_sints & (1u16 << sint_index) != 0 <==> asked
                && !free
        }),
{
    law_scan_reports_free_sources(synic, now, sint_index);
    law_look_at_a_slot(synic.sints, sint_index, 0);
}

/// A scan keeps the registers of the sources and the place of the page. It keeps
/// each timer's count and all bits of its configuration but the lowest, which it
/// never sets.
pub proof fn law_scan_and_the_registers(synic: ProcessorModel, now: u64, n: int)
    requires
        synic.sints.simp_page.contents.len() == 4096,
        synic.sints.sint.len() == 16,
        synic.timers.len() == 4,
        0 <= n < 4,
    ensures
        ({
            let after = synic.scanned(now);
            &&& after.sints.siefp == synic.sints.siefp
            &&& after.sints.simp == synic.sints.simp
            &&& after.sints.scontrol == synic.sints.scontrol
            &&& after.sints.sint == synic.sints.sint
            &&& after.sints.simp_page.gpn == synic.sints.simp_page.gpn
            &&& after.sints.simp_page.contents.len() == 4096
            &&& after.vina == synic.vina
            &&& after.timers.len() == 4
            &&& after.timers[n].count == synic.timers[n].count
            &&& after.timers[n].config.bits == synic.timers[n].config.bits
                || after.timers[n].config.bits == synic.timers[n].config.bits & !1u64
        }),
{
    law_scan_keeps_registers(synic, SharedModel::at_reset(0), now);
    law_scan_evaluates_each_timer(synic, now, n);
}

/// What a scan makes of a timer that is not due yet, or has nothing to do, does
/// not depend on the sources or on other timers: its registers stay, and it is
/// due when its registers say. The time that the scan returns is no later.
pub proof fn law_scan_and_a_timer_that_is_not_due(synic: ProcessorModel, now: u64, n: int)
    requires
        synic.timers.len() == 4,
        0 <= n < 4,
        due_time(synic.timers[n], now) matches Some(due) ==> is_later(due, now),
    ensures
        ({
            let after = synic.scanned(now).timers[n];
            let due = due_time(synic.timers[n], now);
            &&& after.config == synic.timers[n].config
            &&& after.count == synic.timers[n].count
            &&& !after.reevaluate
            &&& after.due_time == due
            &&& due is Some ==> synic.scanned_timers(now).next is Some
                && synic.scanned_timers(now).next->0 <= due->0
        }),
{
    law_scan_evaluates_each_timer(synic, now, n);
    law_scan_returns_earliest_time(synic, now, n);
    law_timer_that_is_not_due(
        synic.timers[n],
        n as u32,
        timers_evaluated(
            synic.timers,
            synic.sints.pending_checked(NUM_SINTS as nat),
            now,
            n as nat,
        ).sints,
        now,
    );
}

/// What one timer asks for is among what all of them ask for.
proof fn lemma_timer_requests(
    timers: Seq<Timer>,
    sints: SintModel,
    now: u64,
    count: nat,
    n: int,
) -> (k: int)
    requires
        0 <= n < count,
        timers[n].evaluated(
            n as u32,
            timers_evaluated(timers, sints, now, n as nat).sints,
            now,
        ).requests.len() == 1,
    ensures
        0 <= k < timers_evaluated(timers, sints, now, count).requests.len(),
        timers_evaluated(timers, sints, now, count).requests[k] == timers[n].evaluated(
            n as u32,
            timers_evaluated(timers, sints, now, n as nat).sints,
            now,
        ).requests[0],
    decreases count,
{
    if n == count - 1 {
        timers_evaluated(timers, sints, now, n as nat).requests.len() as int
    } else {
        lemma_timer_requests(timers, sints, now, (count - 1) as nat, n)
    }
}

/// What a scan makes of a timer in direct mode that is due: it raises its own
/// vector among the interrupts of the scan, and expires.
pub proof fn law_scan_and_a_direct_timer_that_is_due(synic: ProcessorModel, now: u64, n: int)
    requires
        synic.timers.len() == 4,
        0 <= n < 4,
        due_time(synic.timers[n], now) matches Some(due) && !is_later(due, now),
        synic.timers[n].config.bits & 0x1000 != 0,
    ensures
        has_expired(synic.timers[n], synic.scanned(now).timers[n], now),
        exists|k: int|
            {
                &&& 0 <= k < synic.scanned_timers(now).requests.len()
                &&& (#[trigger] synic.scanned_timers(now).requests[k]).vector == (
                synic.timers[n].config.bits >> 4) & 0xff
                &&& !synic.scanned_timers(now).requests[k].auto_eoi
            },
{
    let checked = synic.sints.pending_checked(NUM_SINTS as nat);
    let sints = timers_evaluated(synic.timers, checked, now, n as nat).sints;
    law_scan_evaluates_each_timer(synic, now, n);
    law_direct_timer_raises_its_vector(synic.timers[n], n as u32, sints, now);
    let k = lemma_timer_requests(synic.timers, checked, now, NUM_TIMERS as nat, n);
    assert(synic.scanned_timers(now).requests[k].vector == (synic.timers[n].config.bits >> 4)
        & 0xff);
}

/// Timers that are not due deliver nothing.
proof fn lemma_quiet_timers(timers: Seq<Timer>, sints: SintModel, now: u64, count: nat)
    requires
        count <= timers.len(),
        forall|n: int|
            0 <= n < count ==> ((#[trigger] due_time(timers[n], now)) matches Some(due)
                ==> is_later(due, now)),
    ensures
        timers_evaluated(timers, sints, now, count).sints == sints,
        timers_evaluated(timers, sints, now, count).requests.len() == 0,
    decreases count,
{
    if count > 0 {
        let last = count - 1;
        lemma_quiet_timers(timers, sints, now, last as nat);
        assert(due_time(timers[last], now) matches Some(due) ==> is_later(due, now));
        law_timer_that_is_not_due(timers[last], last as u32, sints, now);
    }
}

/// A scan with nothing asked for and no timer due leaves the page, the sources
/// and the registers alone, and raises no interrupt.
pub proof fn law_quiet_scan(synic: ProcessorModel, now: u64)
    requires
        synic.timers.len() == 4,
        synic.sints.pending_sints == 0,
        forall|n: int|
            0 <= n < 4 ==> ((#[trigger] due_time(synic.timers[n], now)) matches Some(due)
                ==> is_later(due, now)),
    ensures
        synic.scanned(now).sints == synic.sints,
        synic.scan_ready(now) == 0,
        synic.scanned_timers(now).requests.len() == 0,
{
    lemma_unasked_looks(synic.sints, 16);
    lemma_quiet_timers(synic.timers, synic.sints, now, 4);
    let ready = synic.sints.ready_sints;
    assert(ready & 0 == 0 && 0u16 & !(ready & 0) == 0) by (bit_vector);
}

proof fn lemma_unasked_looks(sints: SintModel, count: nat)
    requires
        sints.pending_sints == 0,
        count <= 16,
    ensures
        sints.pending_checked(count) == sints,
    decreases count,
{
    if count > 0 {
        lemma_unasked_looks(sints, (count - 1) as nat);
        lemma_has_sint(0, 0, (count - 1) as u8, 0);
    }
}

/// A full slot is waited for if its source is asked for and not ready.
pub proof fn law_waiting_sources(sints: SintModel, sint_index: u8)
    ensures
        waits_for_its_slot(sints, sint_index) <==> sints.pending_sints & (1u16 << sint_index) != 0
            && sints.ready_sints & (1u16 << sint_index) == 0 && exists|k: int|
            0 <= k < 4 && #[trigger] sints.simp_page.contents[256 * sint_index + k] != 0,
{
    law_slot_types(sints.simp_page.contents, sint_index);
}

} // verus!
