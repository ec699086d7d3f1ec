//! The synthetic timers of a virtual processor.

use crate::access::InterruptRequest;
use crate::access::RequestInterrupt;
use crate::message::HvMessage;
use crate::message::HvMessageHeader;
use crate::message::TimerMessagePayload;
use crate::message::HV_MESSAGE_PAYLOAD_SIZE;
use crate::message::HV_MESSAGE_TYPE_TIMER_EXPIRED;
use crate::registers::lemma_has_sint;
use crate::registers::lemma_timer_sint_in_range;
use crate::registers::lemma_with_enabled;
use crate::registers::HvSynicStimerConfig;
use crate::shared::sint_requests;
use crate::sint::SintModel;
use crate::sint::SintState;
use vstd::prelude::*;

verus! {

/// `time` is ahead of `now` on the clock, which wraps around.
pub open spec fn is_ahead(time: u64, now: u64) -> bool {
    0 < time.wrapping_sub(now) < 0x8000_0000_0000_0000
}

/// The bytes of the message for a timer that expires.
pub open spec fn expiration_message(timer_index: u32, due_time: u64, now: u64) -> Seq<u8> {
    let payload = TimerMessagePayload {
        timer_index,
        reserved: 0,
        expiration_time: due_time,
        delivery_time: now,
    }.bytes();
    HvMessageHeader {
        typ: HV_MESSAGE_TYPE_TIMER_EXPIRED,
        len: payload.len() as u8,
        flags: 0,
        rsvd: 0,
        id: 0,
    }.bytes() + payload + Seq::new(
        (HV_MESSAGE_PAYLOAD_SIZE - payload.len()) as nat,
        |i: int| 0u8,
    )
}

/// What comes of the evaluation of a timer.
#[verifier::ext_equal]
pub struct TimerOutcome {
    pub timer: Timer,
    pub sints: SintModel,
    pub requests: Seq<InterruptRequest>,
    /// When the timer is to be evaluated again.
    pub next: Option<u64>,
}

/// A synthetic timer.
#[derive(Clone, Copy, Debug)]
pub struct Timer {
    pub config: HvSynicStimerConfig,
    pub count: u64,
    /// The registers were written since the due time was set.
    pub reevaluate: bool,
    pub due_time: Option<u64>,
}

impl Default for Timer {
    fn default() -> (timer: Self)
        ensures
            timer == Timer::fresh(),
    {
        Timer {
            config: HvSynicStimerConfig { bits: 0 },
            count: 0,
            reevaluate: false,
            due_time: None,
        }
    }
}

impl Timer {
    /// The timer after a reset.
    pub open spec fn fresh() -> Self {
        Timer {
            config: HvSynicStimerConfig { bits: 0 },
            count: 0,
            reevaluate: false,
            due_time: None,
        }
    }

    /// When a timer with these registers, written at `now`, is due: a periodic
    /// one after its period, any other at the time that its count gives.
    pub open spec fn first_due_time(self, now: u64) -> Option<u64> {
        if self.config.enabled() && self.count != 0 {
            Some(
                if self.config.periodic() {
                    now.wrapping_add(self.count)
                } else {
                    self.count
                },
            )
        } else {
            None
        }
    }

    /// The timer with its due time brought up to date.
    pub open spec fn armed(self, now: u64) -> Self {
        if self.reevaluate {
            Timer { reevaluate: false, due_time: self.first_due_time(now), ..self }
        } else {
            self
        }
    }

    /// The timer after it expired: a periodic one starts its next period, any
    /// other is disabled.
    pub open spec fn expired(self, now: u64) -> Self {
        if self.config.periodic() {
            Timer { due_time: Some(now.wrapping_add(self.count)), ..self }
        } else {
            Timer { config: self.config.with_enabled(false), due_time: None, ..self }
        }
    }

    /// The timer has nothing to do.
    pub open spec fn is_idle(self) -> bool {
        !self.reevaluate && self.due_time is None
    }

    /// A timer that is up to date runs only if it is enabled and has a count.
    pub open spec fn wf(self) -> bool {
        !self.reevaluate && self.due_time is Some ==> self.config.enabled() && self.count != 0
    }

    /// What comes of the evaluation of an up-to-date timer that is due.
    pub open spec fn delivered(
        self,
        timer_index: u32,
        sints: SintModel,
        due_time: u64,
        now: u64,
    ) -> TimerOutcome {
        let sint_index = self.config.sint();
        let checked = sints.checked(sint_index);
        if self.config.direct_mode() {
            TimerOutcome {
                timer: self.expired(now),
                sints,
                requests: seq![
                    InterruptRequest {
                        vector: self.config.apic_vector() as u32,
                        auto_eoi: false,
                    },
                ],
                next: self.expired(now).due_time,
            }
        } else if !sints.takes_messages(sint_index) || sints.is_pending(sint_index) {
            // The source is closed, or promised to someone else.
            TimerOutcome { timer: self, sints, requests: seq![], next: None }
        } else if !sints.found_ready(sint_index) {
            TimerOutcome { timer: self, sints: checked, requests: seq![], next: None }
        } else {
            TimerOutcome {
                timer: self.expired(now),
                sints: checked.posted(
                    sint_index,
                    expiration_message(timer_index, due_time, now),
                ),
                requests: sint_requests(sints.sint[sint_index as int]),
                next: self.expired(now).due_time,
            }
        }
    }

    /// What comes of the evaluation of the timer.
    pub open spec fn evaluated(
        self,
        timer_index: u32,
        sints: SintModel,
        now: u64,
    ) -> TimerOutcome {
        let armed = self.armed(now);
        match armed.due_time {
            None => TimerOutcome { timer: armed, sints, requests: seq![], next: None },
            Some(due_time) => if is_ahead(due_time, now) {
                TimerOutcome { timer: armed, sints, requests: seq![], next: Some(due_time) }
            } else {
                armed.delivered(timer_index, sints, due_time, now)
            },
        }
    }

    /// The timer after a write of its configuration register.
    pub open spec fn with_config(self, v: u64) -> Self {
        Timer { config: HvSynicStimerConfig { bits: v }, reevaluate: true, ..self }
    }

    /// The timer after a write of its count register.
    pub open spec fn with_count(self, v: u64) -> Self {
        Timer {
            config: if self.config.auto_enable() && v != 0 {
                self.config.with_enabled(true)
            } else {
                self.config
            },
            count: v,
            reevaluate: true,
            ..self
        }
    }

    /// Sets the configuration register.
    pub fn set_config(&mut self, v: u64)
        ensures
            *final(self) == old(self).with_config(v),
    {
        self.config = HvSynicStimerConfig { bits: v };
        self.reevaluate = true;
    }

    /// Sets the count register.
    pub fn set_count(&mut self, v: u64)
        ensures
            *final(self) == old(self).with_count(v),
    {
        self.count = v;
        if self.config.auto_enable() && self.count != 0 {
            self.config = self.config.with_enabled(true);
        }
        self.reevaluate = true;
    }

    /// Delivers the timer if it is due. Returns when it is to be evaluated
    /// again, or `None` if that is not known yet.
    pub fn evaluate<I: RequestInterrupt + ?Sized>(
        &mut self,
        timer_index: u32,
        sints: &mut SintState,
        ref_time_now: u64,
        interrupt: &mut I,
    ) -> (next: Option<u64>)
        ensures
            ({
                let outcome = old(self).evaluated(timer_index, old(sints)@, ref_time_now);
                &&& *final(self) == outcome.timer
                &&& final(sints)@ == outcome.sints
                &&& final(interrupt).requests() == old(interrupt).requests() + outcome.requests
                &&& next == outcome.next
            }),
    {
        assert(interrupt.requests() + Seq::<InterruptRequest>::empty() =~= interrupt.requests());
        if self.reevaluate {
            self.reevaluate = false;
            self.due_time = if self.config.enabled() && self.count != 0 {
                Some(
                    if self.config.periodic() {
                        ref_time_now.wrapping_add(self.count)
                    } else {
                        self.count
                    },
                )
            } else {
                None
            };
        }
        assert(*self == old(self).armed(ref_time_now));
        let due_time: u64 = match self.due_time {
            Some(due_time) => due_time,
            None => {
                return None;
            },
        };
        let delta: u64 = due_time.wrapping_sub(ref_time_now);
        assert((delta as i64 > 0) == (0 < delta < 0x8000_0000_0000_0000)) by (bit_vector);
        if (delta as i64) > 0 {
            return Some(due_time);
        }
        if self.config.direct_mode() {
            interrupt.request_interrupt(self.config.apic_vector() as u32, false);
            assert(interrupt.requests() =~= old(interrupt).requests() + old(self).evaluated(
                timer_index,
                old(sints)@,
                ref_time_now,
            ).requests);
        } else {
            let sint_index: u8 = self.config.sint();
            proof {
                lemma_timer_sint_in_range(self.config);
            }
            let sint = sints.sint[sint_index as usize];
            if sint.proxy() || sint.masked() || sints.pending_sints & (1u16 << sint_index) != 0
                || !sints.check_sint_ready(sint_index) {
                return None;
            }
            let payload = TimerMessagePayload {
                timer_index,
                reserved: 0,
                expiration_time: due_time,
                delivery_time: ref_time_now,
            };
            let payload_bytes: Vec<u8> = payload.as_bytes();
            let message = HvMessage::new(
                HV_MESSAGE_TYPE_TIMER_EXPIRED,
                0,
                payload_bytes.as_slice(),
            );
            assert(message.bytes() =~= expiration_message(timer_index, due_time, ref_time_now));
            proof {
                lemma_has_sint(old(sints)@.ready_sints, 0, sint_index, sint_index);
            }
            sints.post_message(sint_index, &message, interrupt);
        }
        // One-shot timers must be disabled upon expiration.
        if !self.config.periodic() {
            self.config = self.config.with_enabled(false);
        }
        proof {
            lemma_with_enabled(old(self).config, false);
        }
        self.due_time = if self.config.periodic() {
            Some(ref_time_now.wrapping_add(self.count))
        } else {
            None
        };
        self.due_time
    }
}

} // verus!
