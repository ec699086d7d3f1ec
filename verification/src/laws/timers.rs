//! Laws of the synthetic timers.

use crate::laws::layouts::law_expiration_message_layout;
use crate::laws::layouts::law_stimer_config_layout;
use crate::laws::messages::law_look_at_a_slot;
use crate::laws::messages::slot_type_is_zero;
use crate::model::timers_evaluated;
use crate::model::ProcessorModel;
use crate::registers::lemma_timer_sint_in_range;
use crate::registers::lemma_with_enabled;
use crate::registers::NUM_SINTS;
use crate::registers::NUM_TIMERS;
use crate::sint::SintModel;
use crate::timer::expiration_message;
use crate::timer::is_ahead;
use crate::timer::Timer;
use crate::timer::TimerOutcome;
use vstd::prelude::*;

verus! {

/// A timer that runs is enabled and has a count: this holds after a reset and
/// is kept by register writes and by evaluation.
pub proof fn law_running_timers_are_enabled(
    timer: Timer,
    v: u64,
    timer_index: u32,
    sints: SintModel,
    now: u64,
)
    requires
        timer.wf(),
    ensures
        Timer::fresh().wf(),
        timer.with_config(v).wf(),
        timer.with_count(v).wf(),
        timer.evaluated(timer_index, sints, now).timer.wf(),
{
}

/// A timer that is not due yet delivers nothing, and is to be evaluated again
/// when it is due.
pub proof fn law_timer_waits_for_its_time(
    timer: Timer,
    timer_index: u32,
    sints: SintModel,
    now: u64,
)
    requires
        timer.armed(now).due_time is Some,
        is_ahead(timer.armed(now).due_time->0, now),
    ensures
        timer.evaluated(timer_index, sints, now) == (TimerOutcome {
            timer: timer.armed(now),
            sints,
            requests: seq![],
            next: timer.armed(now).due_time,
        }),
{
}

/// A timer that delivers was due.
pub proof fn law_timer_delivers_when_due(
    timer: Timer,
    timer_index: u32,
    sints: SintModel,
    now: u64,
)
    requires
        timer.evaluated(timer_index, sints, now).timer != timer.armed(now) || timer.evaluated(
            timer_index,
            sints,
            now,
        ).requests.len() > 0,
    ensures
        timer.armed(now).due_time is Some,
        !is_ahead(timer.armed(now).due_time->0, now),
        timer.evaluated(timer_index, sints, now).timer == timer.armed(now).expired(now),
{
}

/// A timer that is due delivers in direct mode, and else exactly if its source
/// takes messages, is promised to no one and has a free slot.
pub proof fn law_due_timer_delivers(
    timer: Timer,
    timer_index: u32,
    sints: SintModel,
    now: u64,
)
    requires
        timer.armed(now).due_time is Some,
        !is_ahead(timer.armed(now).due_time->0, now),
    ensures
        ({
            let armed = timer.armed(now);
            let sint_index = armed.config.sint();
            let open = armed.config.direct_mode() || (sints.takes_messages(sint_index)
                && !sints.is_pending(sint_index) && sints.found_ready(sint_index));
            timer.evaluated(timer_index, sints, now).timer == if open {
                armed.expired(now)
            } else {
                armed
            }
        }),
{
}

/// A timer that cannot deliver stays due: it delivers as soon as its source is
/// open, with the time at which it was due.
pub proof fn law_held_timer_stays_due(
    timer: Timer,
    timer_index: u32,
    sints: SintModel,
    now: u64,
    later_sints: SintModel,
    later: u64,
)
    requires
        timer.armed(now).due_time is Some,
        !is_ahead(timer.armed(now).due_time->0, now),
        timer.evaluated(timer_index, sints, now).timer == timer.armed(now),
        !is_ahead(timer.armed(now).due_time->0, later),
    ensures
        timer.evaluated(timer_index, sints, now).timer.evaluated(timer_index, later_sints, later)
            == timer.armed(now).delivered(
            timer_index,
            later_sints,
            timer.armed(now).due_time->0,
            later,
        ),
{
}

/// A one-shot timer is disabled when it expires, keeps the rest of its
/// configuration, and does nothing from then on.
pub proof fn law_one_shot_timer_expires_once(
    timer: Timer,
    timer_index: u32,
    sints: SintModel,
    now: u64,
    later: u64,
)
    requires
        !timer.reevaluate,
        !timer.config.periodic(),
    ensures
        ({
            let after = timer.expired(now);
            &&& !after.config.enabled()
            &&& after.config == timer.config.with_enabled(false)
            &&& after.is_idle()
            &&& after.evaluated(timer_index, sints, later) == (TimerOutcome {
                timer: after,
                sints,
                requests: seq![],
                next: None,
            })
        }),
{
    lemma_with_enabled(timer.config, false);
}

/// A periodic timer that expires stays enabled and is due again after its
/// period.
pub proof fn law_periodic_timer_runs_on(timer: Timer, now: u64)
    requires
        timer.config.periodic(),
    ensures
        timer.expired(now).config == timer.config,
        timer.expired(now).count == timer.count,
        timer.expired(now).due_time == Some(now.wrapping_add(timer.count)),
{
}

/// A period that is neither zero nor half the range of the clock is ahead when
/// it starts, so that a periodic timer with it does not expire at once.
pub proof fn law_next_period_is_ahead(timer: Timer, now: u64)
    requires
        timer.config.periodic(),
        0 < timer.count < 0x8000_0000_0000_0000,
    ensures
        is_ahead(timer.expired(now).due_time->0, now),
{
}

/// When the timer `n` is to be evaluated again after a scan.
pub open spec fn timer_next(synic: ProcessorModel, now: u64, n: int) -> Option<u64> {
    let sints = synic.sints.pending_checked(NUM_SINTS as nat);
    synic.timers[n].evaluated(
        n as u32,
        timers_evaluated(synic.timers, sints, now, n as nat).sints,
        now,
    ).next
}

/// A scan returns the earliest of the times at which the timers are to be
/// evaluated again, if there is one.
pub proof fn law_scan_returns_earliest_time(synic: ProcessorModel, now: u64, n: int)
    requires
        0 <= n < NUM_TIMERS,
    ensures
        timer_next(synic, now, n) is Some ==> synic.scanned_timers(now).next is Some
            && synic.scanned_timers(now).next->0 <= timer_next(synic, now, n)->0,
        synic.scanned_timers(now).next is Some ==> exists|i: int|
            0 <= i < NUM_TIMERS && #[trigger] timer_next(synic, now, i)
                == synic.scanned_timers(now).next,
{
    lemma_earliest_time(synic, now, NUM_TIMERS as nat, n);
}

proof fn lemma_earliest_time(synic: ProcessorModel, now: u64, count: nat, n: int)
    requires
        count <= NUM_TIMERS,
    ensures
        ({
            let sints = synic.sints.pending_checked(NUM_SINTS as nat);
            let next = timers_evaluated(synic.timers, sints, now, count).next;
            &&& 0 <= n < count && timer_next(synic, now, n) is Some ==> next is Some && next->0
                <= timer_next(synic, now, n)->0
            &&& next is Some ==> exists|i: int|
                0 <= i < count && #[trigger] timer_next(synic, now, i) == next
        }),
    decreases count,
{
    if count > 0 {
        lemma_earliest_time(synic, now, (count - 1) as nat, n);
        let last = timer_next(synic, now, count - 1);
    }
}

/// The timers are evaluated each on its own registers: what a scan leaves of a
/// timer is what its evaluation leaves.
pub proof fn law_scan_evaluates_each_timer(synic: ProcessorModel, now: u64, n: int)
    requires
        synic.timers.len() == NUM_TIMERS,
        0 <= n < NUM_TIMERS,
    ensures
        synic.scanned(now).timers.len() == NUM_TIMERS,
        synic.scanned(now).timers[n] == synic.timers[n].evaluated(
            n as u32,
            timers_evaluated(
                synic.timers,
                synic.sints.pending_checked(NUM_SINTS as nat),
                now,
                n as nat,
            ).sints,
            now,
        ).timer,
{
    lemma_each_timer(synic.timers, synic.sints.pending_checked(NUM_SINTS as nat), now, 4, n);
}

proof fn lemma_each_timer(timers: Seq<Timer>, sints: SintModel, now: u64, count: nat, n: int)
    requires
        0 <= n < timers.len(),
        count <= timers.len(),
    ensures
        timers_evaluated(timers, sints, now, count).timers.len() == timers.len(),
        timers_evaluated(timers, sints, now, count).timers[n] == if n < count {
            timers[n].evaluated(
                n as u32,
                timers_evaluated(timers, sints, now, n as nat).sints,
                now,
            ).timer
        } else {
            timers[n]
        },
    decreases count,
{
    if count > 0 {
        lemma_each_timer(timers, sints, now, (count - 1) as nat, n);
    }
}

/// A scan keeps it so that a timer that runs is enabled and has a count.
pub proof fn law_scan_keeps_running_timers_enabled(synic: ProcessorModel, now: u64, n: int)
    requires
        synic.timers.len() == NUM_TIMERS,
        0 <= n < NUM_TIMERS,
        synic.timers[n].wf(),
    ensures
        synic.scanned(now).timers[n].wf(),
{
    law_scan_evaluates_each_timer(synic, now, n);
}

/// When a timer is due, by its registers and its clock. One whose registers were
/// written since it was last evaluated takes it from them: none if it is disabled
/// or its count is zero, its count from now on if it is periodic, and else its
/// count. Any other keeps what it had.
pub open spec fn due_time(timer: Timer, now: u64) -> Option<u64> {
    let config = timer.config.bits;
    if !timer.reevaluate {
        timer.due_time
    } else if config & 1 == 0 || timer.count == 0 {
        None
    } else if config & 2 != 0 {
        Some(now.wrapping_add(timer.count))
    } else {
        Some(timer.count)
    }
}

/// `time` lies in the half of the clock's range that is ahead of `now`.
pub open spec fn is_later(time: u64, now: u64) -> bool {
    let ahead = (time - now) % 0x1_0000_0000_0000_0000;
    0 < ahead < 0x8000_0000_0000_0000
}

/// A timer whose registers were written is due when they say: not at all if it is
/// disabled or its count is zero; its count after the evaluation if it is
/// periodic; and at its count if it is not. No other bit of its configuration
/// plays a part. If that time is ahead, nothing is delivered, and the timer is to
/// be evaluated again then.
pub proof fn law_written_timer_goes_by_its_registers(
    timer: Timer,
    timer_index: u32,
    sints: SintModel,
    now: u64,
)
    requires
        timer.reevaluate,
    ensures
        ({
            let outcome = timer.evaluated(timer_index, sints, now);
            let config = timer.config.bits;
            let runs = config & 1 != 0 && timer.count != 0;
            &&& !outcome.timer.reevaluate
            &&& !runs ==> {
                &&& outcome.next is None
                &&& outcome.timer.due_time is None
                &&& outcome.timer.config == timer.config
                &&& outcome.requests.len() == 0
                &&& outcome.sints == sints
            }
            &&& runs && config & 2 != 0 && timer.count < 0x8000_0000_0000_0000 ==> {
                &&& outcome.next == Some(now.wrapping_add(timer.count))
                &&& outcome.timer.due_time == Some(now.wrapping_add(timer.count))
                &&& outcome.timer.config == timer.config
                &&& outcome.requests.len() == 0
                &&& outcome.sints == sints
            }
            &&& runs && config & 2 == 0 && is_later(timer.count, now) ==> {
                &&& outcome.next == Some(timer.count)
                &&& outcome.timer.due_time == Some(timer.count)
                &&& outcome.timer.config == timer.config
                &&& outcome.requests.len() == 0
                &&& outcome.sints == sints
            }
        }),
{
}

/// What was due before a write of a timer's register plays no part after it: two
/// timers with the same registers are evaluated to the same after the same write,
/// whether and when they ran before.
pub proof fn law_writes_restart_timers(
    timer: Timer,
    other: Timer,
    v: u64,
    timer_index: u32,
    sints: SintModel,
    now: u64,
)
    requires
        timer.config == other.config,
        timer.count == other.count,
    ensures
        timer.with_count(v).evaluated(timer_index, sints, now) == other.with_count(v).evaluated(
            timer_index,
            sints,
            now,
        ),
        timer.with_config(v).evaluated(timer_index, sints, now) == other.with_config(v).evaluated(
            timer_index,
            sints,
            now,
        ),
{
}

/// After a write of a timer's count, whether it ran before or not, its next
/// evaluation goes by the new count, and by the configuration, in which the write
/// of a nonzero count sets the enable bit if it is to.
pub proof fn law_written_count_takes_effect(
    timer: Timer,
    v: u64,
    timer_index: u32,
    sints: SintModel,
    now: u64,
)
    ensures
        ({
            let config = timer.config.bits;
            let written = timer.with_count(v);
            let outcome = written.evaluated(timer_index, sints, now);
            let runs = v != 0 && (config & 1 != 0 || config & 8 != 0);
            &&& written.count == v
            &&& written.config.bits == if config & 8 != 0 && v != 0 {
                config | 1
            } else {
                config
            }
            &&& !runs ==> outcome.next is None && outcome.timer.due_time is None
                && outcome.requests.len() == 0
            &&& runs && config & 2 != 0 && v < 0x8000_0000_0000_0000 ==> outcome.next == Some(
                now.wrapping_add(v),
            ) && outcome.requests.len() == 0
            &&& runs && config & 2 == 0 && is_later(v, now) ==> outcome.next == Some(v)
                && outcome.requests.len() == 0
        }),
{
    lemma_with_enabled(timer.config, true);
}

/// After a write of a timer's configuration, whether it ran before or not, its
/// next evaluation goes by the new configuration and by the count.
pub proof fn law_written_config_takes_effect(
    timer: Timer,
    v: u64,
    timer_index: u32,
    sints: SintModel,
    now: u64,
)
    ensures
        ({
            let written = timer.with_config(v);
            let outcome = written.evaluated(timer_index, sints, now);
            let runs = v & 1 != 0 && timer.count != 0;
            &&& written.config.bits == v
            &&& written.count == timer.count
            &&& !runs ==> outcome.next is None && outcome.timer.due_time is None
                && outcome.requests.len() == 0
            &&& runs && v & 2 != 0 && timer.count < 0x8000_0000_0000_0000 ==> outcome.next == Some(
                now.wrapping_add(timer.count),
            ) && outcome.requests.len() == 0
            &&& runs && v & 2 == 0 && is_later(timer.count, now) ==> outcome.next == Some(
                timer.count,
            ) && outcome.requests.len() == 0
        }),
{
}

/// A timer that is not due, or has nothing to do, delivers nothing, and says when
/// it is due.
pub proof fn law_timer_that_is_not_due(
    timer: Timer,
    timer_index: u32,
    sints: SintModel,
    now: u64,
)
    requires
        due_time(timer, now) matches Some(due) ==> is_later(due, now),
    ensures
        ({
            let outcome = timer.evaluated(timer_index, sints, now);
            &&& outcome.next == due_time(timer, now)
            &&& outcome.timer.due_time == due_time(timer, now)
            &&& outcome.timer.config == timer.config
            &&& outcome.timer.count == timer.count
            &&& !outcome.timer.reevaluate
            &&& outcome.requests.len() == 0
            &&& outcome.sints == sints
        }),
{
}

/// What is left of a timer that expired: a periodic one is due again its count
/// from now on and keeps its configuration; any other is not due any more, and
/// the lowest bit of its configuration is cleared.
pub open spec fn has_expired(before: Timer, after: Timer, now: u64) -> bool {
    let config = before.config.bits;
    &&& after.count == before.count
    &&& !after.reevaluate
    &&& after.config.bits == if config & 2 != 0 {
        config
    } else {
        config & !1u64
    }
    &&& after.due_time == if config & 2 != 0 {
        Some(now.wrapping_add(before.count))
    } else {
        None
    }
}

/// A timer in direct mode that is due raises its own vector, once, and expires.
/// The sources play no part.
pub proof fn law_direct_timer_raises_its_vector(
    timer: Timer,
    timer_index: u32,
    sints: SintModel,
    now: u64,
)
    requires
        due_time(timer, now) matches Some(due) && !is_later(due, now),
        timer.config.bits & 0x1000 != 0,
    ensures
        ({
            let outcome = timer.evaluated(timer_index, sints, now);
            &&& outcome.requests.len() == 1
            &&& outcome.requests[0].vector == (timer.config.bits >> 4) & 0xff
            &&& !outcome.requests[0].auto_eoi
            &&& outcome.sints == sints
            &&& has_expired(timer, outcome.timer, now)
            &&& outcome.next == outcome.timer.due_time
        }),
{
    let v = timer.config.bits;
    assert((((v >> 4) & 0xff) as u8) as u32 == (v >> 4) & 0xff) by (bit_vector);
}

/// A timer that is due and posts messages, but whose source is masked, proxied,
/// asked for by others or full, delivers nothing and stays due.
pub proof fn law_timer_with_a_closed_source_stays_due(
    timer: Timer,
    timer_index: u32,
    sints: SintModel,
    now: u64,
)
    requires
        sints.simp_page.contents.len() == 4096,
        sints.sint.len() == 16,
        due_time(timer, now) matches Some(due) && !is_later(due, now),
        timer.config.bits & 0x1000 == 0,
        ({
            let target = ((timer.config.bits >> 16) & 0xf) as u8;
            let sint = sints.sint[target as int].bits;
            ||| sint & 0x1_0000 != 0
            ||| sint & 0x10_0000 != 0
            ||| sints.pending_sints & (1u16 << target) != 0
            ||| sints.ready_sints & (1u16 << target) == 0 && !slot_type_is_zero(
                sints.simp_page.contents,
                target,
            )
        }),
    ensures
        ({
            let target = ((timer.config.bits >> 16) & 0xf) as u8;
            let sint = sints.sint[target as int].bits;
            let outcome = timer.evaluated(timer_index, sints, now);
            &&& outcome.requests.len() == 0
            &&& outcome.next is None
            &&& outcome.timer.due_time == due_time(timer, now)
            &&& outcome.timer.config == timer.config
            &&& outcome.timer.count == timer.count
            &&& !outcome.timer.reevaluate
            &&& outcome.sints == if sint & 0x1_0000 != 0 || sint & 0x10_0000 != 0
                || sints.pending_sints & (1u16 << target) != 0 {
                sints
            } else {
                sints.checked(target)
            }
        }),
{
    lemma_timer_sint_in_range(timer.config);
    law_look_at_a_slot(sints, ((timer.config.bits >> 16) & 0xf) as u8, 0);
}

/// A timer that is due and posts messages, and whose source is open and has a
/// free slot, puts its message there, raises the interrupt of the source unless
/// the guest polls it, and expires. The source is no longer ready. Nothing else
/// changes.
pub proof fn law_timer_posts_its_message(
    timer: Timer,
    timer_index: u32,
    sints: SintModel,
    now: u64,
    i: int,
)
    requires
        sints.simp_page.contents.len() == 4096,
        sints.sint.len() == 16,
        due_time(timer, now) matches Some(due) && !is_later(due, now),
        timer.config.bits & 0x1000 == 0,
        ({
            let target = ((timer.config.bits >> 16) & 0xf) as u8;
            let sint = sints.sint[target as int].bits;
            &&& sint & 0x1_0000 == 0
            &&& sint & 0x10_0000 == 0
            &&& sints.pending_sints & (1u16 << target) == 0
            &&& sints.ready_sints & (1u16 << target) != 0 || slot_type_is_zero(
                sints.simp_page.contents,
                target,
            )
        }),
        0 <= i < 4096,
    ensures
        ({
            let target = ((timer.config.bits >> 16) & 0xf) as u8;
            let sint = sints.sint[target as int].bits;
            let outcome = timer.evaluated(timer_index, sints, now);
            let after = outcome.sints;
            &&& has_expired(timer, outcome.timer, now)
            &&& outcome.next == outcome.timer.due_time
            &&& sint & 0x4_0000 == 0 ==> {
                &&& outcome.requests.len() == 1
                &&& outcome.requests[0].vector == sint & 0xff
                &&& outcome.requests[0].auto_eoi <==> sint & 0x2_0000 != 0
            }
            &&& sint & 0x4_0000 != 0 ==> outcome.requests.len() == 0
            &&& after.simp_page.contents.len() == 4096
            &&& after.simp_page.contents[i] == if target * 256 <= i < target * 256 + 256 {
                expiration_message(timer_index, due_time(timer, now)->0, now)[i - target * 256]
            } else {
                sints.simp_page.contents[i]
            }
            &&& after.simp_page.gpn == sints.simp_page.gpn
            &&& after.ready_sints == sints.ready_sints & !(1u16 << target)
            &&& after.pending_sints == sints.pending_sints
            &&& after.sint == sints.sint
            &&& after.scontrol == sints.scontrol
            &&& after.simp == sints.simp
            &&& after.siefp == sints.siefp
        }),
{
    let target = ((timer.config.bits >> 16) & 0xf) as u8;
    let sint = sints.sint[target as int].bits;
    lemma_timer_sint_in_range(timer.config);
    law_look_at_a_slot(sints, target, i);
    law_expiration_message_layout(timer_index, due_time(timer, now)->0, now);
    let ready = sints.ready_sints;
    let bit = 1u16 << target;
    assert((ready | bit) & !bit == ready & !bit) by (bit_vector);
    assert(((sint & 0xff) as u8) as u32 == sint & 0xff) by (bit_vector);
}

/// No evaluation changes a timer's count, or a bit of its configuration but the
/// lowest, which it never sets.
pub proof fn law_evaluation_keeps_the_registers(
    timer: Timer,
    timer_index: u32,
    sints: SintModel,
    now: u64,
)
    ensures
        ({
            let after = timer.evaluated(timer_index, sints, now).timer;
            &&& after.count == timer.count
            &&& after.config.bits == timer.config.bits || after.config.bits == timer.config.bits
                & !1u64
            &&& timer.config.bits & 2 != 0 ==> after.config == timer.config
        }),
{
}

/// A periodic timer whose source is open expires once each period, with the time
/// between the evaluations if they come at the times that it asks for.
pub proof fn law_periodic_timer_expires_each_period(
    timer: Timer,
    timer_index: u32,
    sints: SintModel,
    later_sints: SintModel,
    now: u64,
)
    requires
        timer.reevaluate,
        timer.config.bits & 1 != 0,
        timer.config.bits & 2 != 0,
        timer.config.bits & 0x1000 != 0,
        0 < timer.count < 0x8000_0000_0000_0000,
    ensures
        ({
            let first = timer.evaluated(timer_index, sints, now);
            let then = now.wrapping_add(timer.count);
            let second = first.timer.evaluated(timer_index, later_sints, then);
            &&& first.requests.len() == 0
            &&& first.next == Some(then)
            &&& second.requests.len() == 1
            &&& second.next == Some(then.wrapping_add(timer.count))
        }),
{
}

/// A reset timer is disabled and has nothing to do.
pub proof fn law_fresh_timer()
    ensures
        Timer::fresh().config.bits == 0,
        Timer::fresh().count == 0,
        !Timer::fresh().reevaluate,
        Timer::fresh().due_time is None,
{
}

/// When a timer is due, case by case, and which times are ahead on a clock that
/// wraps around.
pub proof fn law_due_times(timer: Timer, time: u64, now: u64)
    ensures
        !timer.reevaluate ==> due_time(timer, now) == timer.due_time,
        timer.reevaluate && timer.config.bits % 2 == 0 ==> due_time(timer, now) is None,
        timer.reevaluate && timer.count == 0 ==> due_time(timer, now) is None,
        timer.reevaluate && timer.config.bits % 2 == 1 && timer.count != 0 ==> {
            &&& timer.config.bits / 2 % 2 == 1 ==> due_time(timer, now) == Some(
                ((now + timer.count) % 0x1_0000_0000_0000_0000) as u64,
            )
            &&& timer.config.bits / 2 % 2 == 0 ==> due_time(timer, now) == Some(timer.count)
        },
        time >= now ==> (is_later(time, now) <==> 0 < time - now < 0x8000_0000_0000_0000),
        time < now ==> (is_later(time, now) <==> now - time > 0x8000_0000_0000_0000),
{
    law_stimer_config_layout(timer.config);
}

/// What an expired timer reads, bit by bit: a one-shot timer with its enable bit
/// cleared, a periodic one as before.
pub proof fn law_expired_timers(before: Timer, after: Timer, now: u64)
    requires
        has_expired(before, after, now),
    ensures
        after.count == before.count,
        !after.reevaluate,
        before.config.bits / 2 % 2 == 1 ==> after.config.bits == before.config.bits
            && after.due_time == Some(
            ((now + before.count) % 0x1_0000_0000_0000_0000) as u64,
        ),
        before.config.bits / 2 % 2 == 0 ==> after.config.bits == before.config.bits
            - before.config.bits % 2 && after.due_time is None,
{
    law_stimer_config_layout(before.config);
}

} // verus!
