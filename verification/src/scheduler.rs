//! The shutdown scheduler: a single cancellable countdown towards the user's
//! target time, and a decrementing confirmation counter that gates manual
//! "shutdown now" requests.
//!
//! The scheduler itself is pure: every operation takes the current instant as
//! an argument and returns an [`Effect`] telling the surrounding event loop
//! what to do (schedule or replace the one callback, or invoke the external
//! shutdown action).

use vstd::prelude::*;

use crate::resolver::hhmm_sec_of_day;
use crate::resolver::resolve;
use crate::resolver::resolve_spec;
use crate::resolver::lemma_resolve_future;
use crate::resolver::valid_hhmm;
use crate::stamp::LocalStamp;
use crate::stamp::SECS_PER_DAY;
use crate::stamp::lemma_plus_secs;
use vstd::arithmetic::div_mod::lemma_div_is_ordered;
use vstd::arithmetic::div_mod::lemma_fundamental_div_mod;
use vstd::arithmetic::div_mod::lemma_fundamental_div_mod_converse;

verus! {

/// How many manual "shutdown now" confirmations a fresh (or freshly re-armed)
/// scheduler demands before it actually shuts the machine down.
pub const INITIAL_CONFIRMS: u8 = 3;

/// A scheduled single-fire countdown, recorded as the instant at which it
/// will fire. The live callback handle itself is owned by the event loop that
/// drives the scheduler; at most one countdown exists at a time.
#[derive(Clone, Copy, PartialEq, Eq, Structural, Debug)]
pub struct PendingCountdown {
    pub fire_at: LocalStamp,
}

/// The outward action a scheduler operation asks the surrounding event loop
/// to perform.
#[derive(Clone, Copy, PartialEq, Eq, Structural, Debug)]
pub enum Effect {
    /// Nothing to perform.
    Nothing,
    /// Cancel whatever callback was scheduled before and schedule a fresh
    /// single-fire callback after this many seconds; when it fires, feed
    /// `trigger(true)` back into the scheduler.
    Schedule { delay_secs: u32 },
    /// Invoke the external shutdown action, exactly once, right now.
    Shutdown,
}

/// A user-interface event, as the surrounding event loop delivers it.
pub enum Msg {
    /// The time field was edited to this text.
    UpdateShutdownTime(String),
    /// "Set" was clicked: arm the countdown towards the current target.
    SetShutdownTimer,
    /// A shutdown request; `true` when the countdown fired by itself, `false`
    /// for a manual "Shutdown Now" click.
    Shutdown(bool),
    /// A preset control was clicked: this many minutes from now.
    PredefinedShutdownTime(i64),
}

/// The shutdown scheduler's state: the chosen target time, the one pending
/// countdown, the remaining-confirmations counter, and the informational
/// "a countdown has been armed" flag.
#[derive(Clone, Copy, PartialEq, Eq, Debug)]
pub struct ShutdownScheduler {
    pub target_time: Option<LocalStamp>,
    pub countdown: Option<PendingCountdown>,
    pub confirm_counter: u8,
    pub active: bool,
}

/// `SetTargetTime`: valid input replaces the target with the instant it
/// resolves to; malformed input leaves the scheduler exactly as it was. The
/// countdown is never touched.
pub open spec fn set_target_step(
    s: ShutdownScheduler,
    input: Seq<char>,
    now: LocalStamp,
) -> ShutdownScheduler {
    if valid_hhmm(input) {
        ShutdownScheduler { target_time: Some(resolve_spec(hhmm_sec_of_day(input), now)), ..s }
    } else {
        s
    }
}

/// `ApplyPreset`: the target becomes `now` plus the given number of minutes;
/// nothing else changes, in particular no countdown is armed yet.
pub open spec fn preset_step(
    s: ShutdownScheduler,
    minutes: int,
    now: LocalStamp,
) -> ShutdownScheduler {
    ShutdownScheduler { target_time: Some(now.plus_secs(minutes * 60)), ..s }
}

/// `Arm`: with no target set, nothing happens at all. Otherwise the existing
/// countdown is dropped and the delay is recomputed from the target's
/// time-of-day resolved against `now`; a positive delay arms a fresh
/// countdown and restores the confirmation counter, a non-positive one leaves
/// the scheduler with no countdown.
pub open spec fn arm_step(s: ShutdownScheduler, now: LocalStamp) -> (ShutdownScheduler, Effect) {
    match s.target_time {
        Some(t) => {
            let fire_at = resolve_spec(t.sec as int, now);
            let delay = fire_at.total_secs() - now.total_secs();
            if delay > 0 {
                (
                    ShutdownScheduler {
                        countdown: Some(PendingCountdown { fire_at }),
                        confirm_counter: INITIAL_CONFIRMS,
                        active: true,
                        ..s
                    },
                    Effect::Schedule { delay_secs: delay as u32 },
                )
            } else {
                (ShutdownScheduler { countdown: None, ..s }, Effect::Nothing)
            }
        },
        None => (s, Effect::Nothing),
    }
}

/// One event-loop step: which operation each user event performs, and the
/// effect handed back to the loop.
pub open spec fn update_step(
    s: ShutdownScheduler,
    msg: Msg,
    now: LocalStamp,
) -> (ShutdownScheduler, Effect) {
    match msg {
        Msg::UpdateShutdownTime(t) => (set_target_step(s, t@, now), Effect::Nothing),
        Msg::SetShutdownTimer => arm_step(s, now),
        Msg::Shutdown(forced) => trigger_step(s, forced),
        Msg::PredefinedShutdownTime(m) => (preset_step(s, m as int, now), Effect::Nothing),
    }
}

/// `Trigger`: a forced trigger (the countdown firing), or a manual one with
/// the counter already at zero, demands immediate shutdown and mutates
/// nothing; any other manual trigger merely consumes one confirmation.
pub open spec fn trigger_step(s: ShutdownScheduler, forced: bool) -> (ShutdownScheduler, Effect) {
    if forced || s.confirm_counter == 0 {
        (s, Effect::Shutdown)
    } else {
        (
            ShutdownScheduler { confirm_counter: (s.confirm_counter - 1) as u8, ..s },
            Effect::Nothing,
        )
    }
}

impl ShutdownScheduler {
    /// The counter never exceeds its initial allowance, and every stored
    /// instant is well-formed.
    pub open spec fn wf(self) -> bool {
        &&& self.confirm_counter <= INITIAL_CONFIRMS
        &&& match self.target_time {
            Some(t) => t.wf(),
            None => true,
        }
        &&& match self.countdown {
            Some(c) => c.fire_at.wf(),
            None => true,
        }
    }

    /// A fresh scheduler: no target yet — one is created only when the user
    /// confirms a time or picks a preset — no countdown pending, the full
    /// confirmation allowance, not yet armed.
    pub fn new() -> (s: ShutdownScheduler)
        ensures
            s.target_time is None,
            s.countdown is None,
            s.confirm_counter == INITIAL_CONFIRMS,
            !s.active,
            s.wf(),
    {
        ShutdownScheduler {
            target_time: None,
            countdown: None,
            confirm_counter: INITIAL_CONFIRMS,
            active: false,
        }
    }

    /// `SetTargetTime`: parses and resolves the input against `now`; on
    /// success the target is replaced, on a parse failure the scheduler is
    /// left exactly as it was. No countdown is created, cancelled or moved.
    pub fn set_target_time(&mut self, input: &str, now: LocalStamp)
        requires
            old(self).wf(),
            now.wf(),
            now.day < i64::MAX,
        ensures
            *final(self) == set_target_step(*old(self), input@, now),
            final(self).wf(),
    {
        match resolve(input, now) {
            Ok(t) => {
                self.target_time = Some(t);
            },
            Err(_) => {},
        }
    }

    /// `ApplyPreset`: the target becomes `now` plus `minutes` minutes —
    /// strictly in the future by construction for a positive preset. The
    /// countdown and the counter are untouched; the user must still arm.
    pub fn apply_preset(&mut self, minutes: i64, now: LocalStamp)
        requires
            old(self).wf(),
            now.wf(),
            0 <= minutes,
            now.day + (now.sec + minutes * 60) / (SECS_PER_DAY as int) <= i64::MAX,
        ensures
            *final(self) == preset_step(*old(self), minutes as int, now),
            final(self).target_time == Some(now.plus_secs(minutes * 60)),
            final(self).target_time.unwrap().total_secs() == now.total_secs() + minutes * 60,
            final(self).wf(),
    {
        let ghost x = now.sec + minutes * 60;
        let ghost c = SECS_PER_DAY as int;
        let m = minutes as u64;
        let whole: u64 = m / 1440;
        let rem: u64 = m % 1440;
        proof {
            lemma_fundamental_div_mod(m as int, 1440);
            // 60 * minutes decomposes into whole days plus a sub-day rest.
            assert(60 * (m as int) == c * (whole as int) + 60 * (rem as int));
            lemma_fundamental_div_mod_converse(60 * (m as int), c, whole as int, 60 * (rem as int));
            lemma_div_is_ordered(60 * (m as int), x, c);
        }
        let add: u32 = (rem as u32) * 60;
        let sec0: u32 = now.sec + add;
        proof {
            if sec0 >= SECS_PER_DAY {
                lemma_fundamental_div_mod_converse(x, c, whole as int + 1, sec0 - c);
            } else {
                lemma_fundamental_div_mod_converse(x, c, whole as int, sec0 as int);
            }
        }
        let (day, sec): (i64, u32) = if sec0 >= SECS_PER_DAY {
            (now.day + (whole as i64) + 1, sec0 - SECS_PER_DAY)
        } else {
            (now.day + (whole as i64), sec0)
        };
        proof {
            lemma_plus_secs(now, minutes * 60);
        }
        self.target_time = Some(LocalStamp { day, sec });
    }

    /// `Arm`: cancels and replaces the one countdown. With a target set, the
    /// newly armed countdown fires at the target's time-of-day resolved
    /// against `now` — strictly in the future, at most one day away — and the
    /// confirmation counter is restored; with none set, this is a no-op.
    pub fn arm(&mut self, now: LocalStamp) -> (eff: Effect)
        requires
            old(self).wf(),
            now.wf(),
            now.day < i64::MAX,
        ensures
            (*final(self), eff) == arm_step(*old(self), now),
            final(self).wf(),
            old(self).target_time is Some ==> {
                &&& final(self).countdown is Some
                &&& final(self).countdown.unwrap().fire_at.spec_after(now)
                &&& eff == (Effect::Schedule {
                    delay_secs: (final(self).countdown.unwrap().fire_at.total_secs()
                        - now.total_secs()) as u32,
                })
            },
    {
        match self.target_time {
            Some(t) => {
                proof {
                    lemma_resolve_future(t.sec as int, now);
                }
                // Today's instant at the target's time-of-day; already past
                // (or exactly now) means the next day instead.
                let candidate = LocalStamp { day: now.day, sec: t.sec };
                let (fire_at, delay): (LocalStamp, u32) = if candidate.after(now) {
                    (candidate, t.sec - now.sec)
                } else {
                    (
                        LocalStamp { day: now.day + 1, sec: t.sec },
                        SECS_PER_DAY - now.sec + t.sec,
                    )
                };
                if delay > 0 {
                    self.countdown = Some(PendingCountdown { fire_at });
                    self.confirm_counter = INITIAL_CONFIRMS;
                    self.active = true;
                    Effect::Schedule { delay_secs: delay }
                } else {
                    self.countdown = None;
                    Effect::Nothing
                }
            },
            None => Effect::Nothing,
        }
    }

    /// `Trigger`: with `forced` (the countdown fired) or an exhausted
    /// counter, asks for immediate shutdown and changes nothing; otherwise
    /// consumes one confirmation and asks for nothing.
    pub fn trigger(&mut self, forced: bool) -> (eff: Effect)
        requires
            old(self).wf(),
        ensures
            (*final(self), eff) == trigger_step(*old(self), forced),
            final(self).wf(),
    {
        if forced || self.confirm_counter == 0 {
            Effect::Shutdown
        } else {
            self.confirm_counter = self.confirm_counter - 1;
            Effect::Nothing
        }
    }

    /// One step of the event loop: dispatches a user event to the operation
    /// it names and returns the outward effect to perform.
    pub fn update(&mut self, msg: Msg, now: LocalStamp) -> (eff: Effect)
        requires
            old(self).wf(),
            now.wf(),
            now.day < i64::MAX,
            msg matches Msg::PredefinedShutdownTime(m) ==> 0 <= m && now.day + (now.sec + m
                * 60) / (SECS_PER_DAY as int) <= i64::MAX,
        ensures
            final(self).wf(),
            (*final(self), eff) == update_step(*old(self), msg, now),
    {
        match msg {
            Msg::UpdateShutdownTime(t) => {
                self.set_target_time(t.as_str(), now);
                Effect::Nothing
            },
            Msg::SetShutdownTimer => self.arm(now),
            Msg::Shutdown(forced) => self.trigger(forced),
            Msg::PredefinedShutdownTime(m) => {
                self.apply_preset(m, now);
                Effect::Nothing
            },
        }
    }

    /// One step of the event loop against the machine's clock, as the event
    /// dispatcher runs it: reads the current instant and dispatches the
    /// event. Which instant the clock reports cannot be known, so all that is
    /// promised is that the transition taken is `update_step` for some
    /// well-formed instant within the clock's day range.
    pub fn update_now(&mut self, msg: Msg) -> (eff: Effect)
        requires
            old(self).wf(),
            msg matches Msg::PredefinedShutdownTime(m) ==> 0 <= m <= 1440,
        ensures
            final(self).wf(),
            exists|now: LocalStamp|
                {
                    &&& now.wf()
                    &&& i32::MIN <= now.day <= i32::MAX
                    &&& (*final(self), eff) == #[trigger] update_step(*old(self), msg, now)
                },
    {
        let now = crate::clock::now_stamp();
        proof {
            if let Msg::PredefinedShutdownTime(m) = msg {
                // A preset of at most a day advances the day index by at most
                // one, which an i32-range day survives with room to spare.
                lemma_div_is_ordered(now.sec + m * 60, 2 * (SECS_PER_DAY as int) - 1, SECS_PER_DAY as int);
            }
        }
        let ghost n = now;
        let eff = self.update(msg, now);
        proof {
            assert((*self, eff) == update_step(*old(self), msg, n));
        }
        eff
    }

    /// Drops the pending countdown without scheduling a replacement and
    /// clears the informational armed flag; target and counter stay.
    pub fn reset(&mut self)
        requires
            old(self).wf(),
        ensures
            final(self).countdown is None,
            !final(self).active,
            final(self).target_time == old(self).target_time,
            final(self).confirm_counter == old(self).confirm_counter,
            final(self).wf(),
    {
        self.active = false;
        self.countdown = None;
    }
}

/// Arming twice in immediate succession with an unchanged target behaves
/// like arming once: the second call cancels and replaces the countdown with
/// an identical one, so exactly one countdown is live afterwards.
pub proof fn lemma_arm_idempotent(s: ShutdownScheduler, now: LocalStamp)
    requires
        s.wf(),
        now.wf(),
        now.day < i64::MAX,
    ensures
        ({
            let (s1, e1) = arm_step(s, now);
            let (s2, e2) = arm_step(s1, now);
            &&& s2 == s1
            &&& e2 == e1
            &&& (s.target_time is Some ==> s1.countdown is Some)
        }),
{
    match s.target_time {
        Some(t) => {
            lemma_resolve_future(t.sec as int, now);
        },
        None => {},
    }
}

/// A preset of up to one day's worth of minutes followed immediately by `Arm`
/// schedules the countdown to fire exactly that many minutes after `now`.
pub proof fn lemma_preset_then_arm(s: ShutdownScheduler, minutes: int, now: LocalStamp)
    requires
        s.wf(),
        now.wf(),
        now.day < i64::MAX,
        0 < minutes <= 1440,
    ensures
        ({
            let s1 = preset_step(s, minutes, now);
            let (s2, eff) = arm_step(s1, now);
            &&& s2.countdown is Some
            &&& s2.countdown.unwrap().fire_at.total_secs() == now.total_secs() + minutes * 60
            &&& eff == (Effect::Schedule { delay_secs: (minutes * 60) as u32 })
        }),
{
    let x = now.sec + minutes * 60;
    let c = SECS_PER_DAY as int;
    if x < c {
        lemma_fundamental_div_mod_converse(x, c, 0, x);
    } else {
        lemma_fundamental_div_mod_converse(x, c, 1, x - c);
    }
    let t = now.plus_secs(minutes * 60);
    lemma_resolve_future(t.sec as int, now);
}

/// From a full confirmation allowance, the first three manual triggers do
/// not demand shutdown but each consume one confirmation; once the counter
/// reaches zero, every further manual trigger demands shutdown, and the
/// counter stays at zero rather than going negative.
pub proof fn lemma_confirm_counter_runs_out(s: ShutdownScheduler)
    requires
        s.wf(),
        s.confirm_counter == INITIAL_CONFIRMS,
    ensures
        ({
            let (s1, e1) = trigger_step(s, false);
            let (s2, e2) = trigger_step(s1, false);
            let (s3, e3) = trigger_step(s2, false);
            let (s4, e4) = trigger_step(s3, false);
            let (s5, e5) = trigger_step(s4, false);
            &&& e1 == Effect::Nothing
            &&& e2 == Effect::Nothing
            &&& e3 == Effect::Nothing
            &&& s3.confirm_counter == 0
            &&& e4 == Effect::Shutdown
            &&& s4 == s3
            &&& e5 == Effect::Shutdown
            &&& s5 == s4
        }),
{
}

/// A forced trigger — the countdown firing — demands shutdown whatever the
/// counter holds, and leaves the whole state, the counter included,
/// unchanged; one firing yields exactly one shutdown demand.
pub proof fn lemma_forced_trigger(s: ShutdownScheduler)
    ensures
        trigger_step(s, true).1 == Effect::Shutdown,
        trigger_step(s, true).0 == s,
{
}

/// Malformed input leaves the scheduler — the prior target included —
/// exactly as it was.
pub proof fn lemma_malformed_input_ignored(s: ShutdownScheduler, input: Seq<char>, now: LocalStamp)
    requires
        !valid_hhmm(input),
    ensures
        set_target_step(s, input, now) == s,
{
}

} // verus!
