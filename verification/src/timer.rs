use vstd::prelude::*;

use crate::errors::BlockError;

verus! {

/// The kind of interval currently being timed. Transitions are cyclic:
/// work intervals alternate with short breaks until a full cycle of rounds
/// has been worked, after which a long break runs and the cycle restarts.
#[derive(Clone, Copy, PartialEq, Eq, Structural, Debug)]
pub enum Phase {
    Work,
    ShortBreak,
    LongBreak,
}

/// A snapshot of the timer as seen by a caller of `tick` or `status`.
#[derive(Clone, Copy, PartialEq, Eq, Structural, Debug)]
pub struct TimerStatus {
    pub phase: Phase,
    /// Seconds left in the current phase.
    pub remaining: u64,
    /// 1-based count of the work interval within the current cycle.
    pub round: u64,
    /// Whether this snapshot carries a phase-transition notification.
    pub notified: bool,
}

/// The work/break interval state machine. All durations are in seconds.
pub struct PomodoroTimer {
    /// The interval kind currently being timed.
    pub phase: Phase,
    /// Seconds left in the current phase; always at least 1.
    pub remaining: u64,
    /// 1-based counter of work intervals within the current cycle.
    pub round: u64,
    /// Whether the timer is actively consuming elapsed time.
    pub running: bool,
    /// Whether phase transitions should carry a notification flag.
    pub notify: bool,
    /// Configured length of a work interval.
    pub work_len: u64,
    /// Configured length of a short break.
    pub break_len: u64,
    /// Configured length of a long break.
    pub long_break_len: u64,
    /// Work intervals per cycle; the last one is followed by a long break.
    pub rounds_per_cycle: u64,
}

impl PomodoroTimer {
    /// Internal consistency: positive interval lengths, a round counter that
    /// stays inside the cycle, and time left in the current phase. A short
    /// break is only ever entered with rounds still to go, which keeps the
    /// round counter from passing `rounds_per_cycle` when the break ends.
    pub open spec fn wf(self) -> bool {
        &&& self.work_len >= 1
        &&& self.break_len >= 1
        &&& self.long_break_len >= 1
        &&& self.rounds_per_cycle >= 1
        &&& 1 <= self.round <= self.rounds_per_cycle
        &&& self.remaining >= 1
        &&& (self.phase is ShortBreak ==> self.round < self.rounds_per_cycle)
    }

    /// The state right after the current phase runs out: the transition
    /// table. Work is followed by a short break, or by a long break when the
    /// cycle's last round was just worked; a short break starts the next
    /// round; a long break starts a fresh cycle.
    pub open spec fn advanced(self) -> PomodoroTimer {
        match self.phase {
            Phase::Work => if self.round < self.rounds_per_cycle {
                PomodoroTimer { phase: Phase::ShortBreak, remaining: self.break_len, ..self }
            } else {
                PomodoroTimer { phase: Phase::LongBreak, remaining: self.long_break_len, ..self }
            },
            Phase::ShortBreak => PomodoroTimer {
                phase: Phase::Work,
                remaining: self.work_len,
                round: (self.round + 1) as u64,
                ..self
            },
            Phase::LongBreak => PomodoroTimer {
                phase: Phase::Work,
                remaining: self.work_len,
                round: 1,
                ..self
            },
        }
    }

    /// The state after `elapsed` seconds pass. A paused timer is unchanged;
    /// a running one consumes the time phase by phase, repeating the
    /// transition rule whenever the current phase runs out, so that even one
    /// very coarse tick crosses as many phases as the time covers.
    pub open spec fn ticked(self, elapsed: u64) -> PomodoroTimer
        decreases elapsed,
        when self.wf()
    {
        if !self.running {
            self
        } else if elapsed < self.remaining {
            PomodoroTimer { remaining: (self.remaining - elapsed) as u64, ..self }
        } else {
            self.advanced().ticked((elapsed - self.remaining) as u64)
        }
    }

    /// Whether a call of `tick(elapsed)` crosses a phase boundary and so
    /// carries a notification, provided notifications are configured.
    pub open spec fn tick_notifies(self, elapsed: u64) -> bool {
        self.running && self.notify && elapsed >= self.remaining
    }

    /// The same timer, started.
    pub open spec fn played(self) -> PomodoroTimer {
        PomodoroTimer { running: true, ..self }
    }

    /// The same timer, paused.
    pub open spec fn paused(self) -> PomodoroTimer {
        PomodoroTimer { running: false, ..self }
    }

    /// Builds a paused timer in the `Work` phase, round 1. Construction is
    /// the only place validation happens: every length and the round count
    /// must be at least 1, else the round-based long-break transition would
    /// be undefined and a tick could fail to terminate.
    pub fn new(
        work_len: u64,
        break_len: u64,
        long_break_len: u64,
        rounds_per_cycle: u64,
        notify: bool,
    ) -> (r: Result<PomodoroTimer, BlockError>)
        ensures
            r is Ok <==> (work_len >= 1 && break_len >= 1 && long_break_len >= 1
                && rounds_per_cycle >= 1),
            r matches Ok(t) ==> t == (PomodoroTimer {
                phase: Phase::Work,
                remaining: work_len,
                round: 1,
                running: false,
                notify,
                work_len,
                break_len,
                long_break_len,
                rounds_per_cycle,
            }),
            r matches Ok(t) ==> t.wf(),
            r matches Err(e) ==> e == BlockError::ConfigurationError,
    {
        if work_len == 0 || break_len == 0 || long_break_len == 0 || rounds_per_cycle == 0 {
            Err(BlockError::ConfigurationError)
        } else {
            Ok(PomodoroTimer {
                phase: Phase::Work,
                remaining: work_len,
                round: 1,
                running: false,
                notify,
                work_len,
                break_len,
                long_break_len,
                rounds_per_cycle,
            })
        }
    }

    /// Starts the timer. Idempotent: nothing but `running` changes.
    pub fn play(&mut self)
        ensures
            *final(self) == old(self).played(),
    {
        self.running = true;
    }

    /// Pauses the timer. Idempotent: nothing but `running` changes.
    pub fn pause(&mut self)
        ensures
            *final(self) == old(self).paused(),
    {
        self.running = false;
    }

    /// A snapshot of the current state; never carries a notification.
    pub fn status(&self) -> (st: TimerStatus)
        ensures
            st == (TimerStatus {
                phase: self.phase,
                remaining: self.remaining,
                round: self.round,
                notified: false,
            }),
    {
        TimerStatus { phase: self.phase, remaining: self.remaining, round: self.round, notified: false }
    }

    /// One transition of the table, as executable code.
    fn advance(&mut self)
        requires
            old(self).wf(),
        ensures
            *final(self) == old(self).advanced(),
            final(self).wf(),
    {
        match self.phase {
            Phase::Work => {
                if self.round < self.rounds_per_cycle {
                    self.phase = Phase::ShortBreak;
                    self.remaining = self.break_len;
                } else {
                    self.phase = Phase::LongBreak;
                    self.remaining = self.long_break_len;
                }
            },
            Phase::ShortBreak => {
                self.phase = Phase::Work;
                self.remaining = self.work_len;
                self.round = self.round + 1;
            },
            Phase::LongBreak => {
                self.phase = Phase::Work;
                self.remaining = self.work_len;
                self.round = 1;
            },
        }
    }

    /// Consumes `elapsed` seconds: a paused timer is returned untouched;
    /// a running one is decremented, crossing as many phase transitions as
    /// the elapsed time covers. The returned snapshot reflects the new state
    /// and says whether any transition happened under the notify setting.
    pub fn tick(&mut self, elapsed: u64) -> (st: TimerStatus)
        requires
            old(self).wf(),
        ensures
            final(self).wf(),
            *final(self) == old(self).ticked(elapsed),
            st == (TimerStatus {
                phase: final(self).phase,
                remaining: final(self).remaining,
                round: final(self).round,
                notified: old(self).tick_notifies(elapsed),
            }),
    {
        let notified = self.running && self.notify && elapsed >= self.remaining;
        if self.running {
            let mut left: u64 = elapsed;
            while left >= self.remaining
                invariant
                    self.wf(),
                    self.running,
                    old(self).ticked(elapsed) == self.ticked(left),
                decreases left,
            {
                left = left - self.remaining;
                self.advance();
            }
            self.remaining = self.remaining - left;
        }
        TimerStatus {
            phase: self.phase,
            remaining: self.remaining,
            round: self.round,
            notified,
        }
    }
}

/// The state after a whole sequence of ticks, applied in order.
pub open spec fn ticked_all(t: PomodoroTimer, ticks: Seq<u64>) -> PomodoroTimer
    decreases ticks.len(),
{
    if ticks.len() == 0 {
        t
    } else {
        ticked_all(t.ticked(ticks[0]), ticks.drop_first())
    }
}

/// Law: the well-formedness invariant holds in every state a tick can reach.
pub proof fn lemma_ticked_wf(t: PomodoroTimer, elapsed: u64)
    requires
        t.wf(),
    ensures
        t.ticked(elapsed).wf(),
    decreases elapsed,
{
    if t.running && elapsed >= t.remaining {
        lemma_ticked_wf(t.advanced(), (elapsed - t.remaining) as u64);
    }
}

/// Law: a paused timer is a pure no-op under any sequence of ticks — its
/// state is unchanged however much time is reported to it.
pub proof fn lemma_paused_ticks_noop(t: PomodoroTimer, ticks: Seq<u64>)
    requires
        t.wf(),
        !t.running,
    ensures
        ticked_all(t, ticks) == t,
    decreases ticks.len(),
{
    if ticks.len() > 0 {
        assert(t.ticked(ticks[0]) == t);
        lemma_paused_ticks_noop(t, ticks.drop_first());
    }
}

/// Law: once a running work interval has consumed its full length, the timer
/// rests at the start of the configured break — the short one while rounds
/// remain in the cycle, the long one after the cycle's last round — and the
/// round count is untouched.
pub proof fn lemma_work_interval_completes(t: PomodoroTimer)
    requires
        t.wf(),
        t.running,
        t.phase is Work,
        t.remaining == t.work_len,
    ensures
        t.round < t.rounds_per_cycle ==> t.ticked(t.work_len) == (PomodoroTimer {
            phase: Phase::ShortBreak,
            remaining: t.break_len,
            ..t
        }),
        t.round == t.rounds_per_cycle ==> t.ticked(t.work_len) == (PomodoroTimer {
            phase: Phase::LongBreak,
            remaining: t.long_break_len,
            ..t
        }),
{
    assert(t.ticked(t.work_len) == t.advanced().ticked(0));
    assert(t.advanced().ticked(0) == t.advanced());
}

/// Law: when a running short break runs out, the next round's work begins:
/// the round counter steps up by one and the work length is restored.
pub proof fn lemma_short_break_completes(t: PomodoroTimer)
    requires
        t.wf(),
        t.running,
        t.phase is ShortBreak,
    ensures
        t.ticked(t.remaining) == (PomodoroTimer {
            phase: Phase::Work,
            remaining: t.work_len,
            round: (t.round + 1) as u64,
            ..t
        }),
{
    assert(t.ticked(t.remaining) == t.advanced().ticked(0));
    assert(t.advanced().ticked(0) == t.advanced());
}

/// Law: when a running long break runs out, a fresh cycle starts: the phase
/// returns to work, the round counter resets to 1, and the work length is
/// restored.
pub proof fn lemma_long_break_completes(t: PomodoroTimer)
    requires
        t.wf(),
        t.running,
        t.phase is LongBreak,
    ensures
        t.ticked(t.remaining) == (PomodoroTimer {
            phase: Phase::Work,
            remaining: t.work_len,
            round: 1,
            ..t
        }),
{
    assert(t.ticked(t.remaining) == t.advanced().ticked(0));
    assert(t.advanced().ticked(0) == t.advanced());
}

/// Law: play, then pause, then play again — the remaining time never drifts
/// while paused; after the second play it is exactly what it was at the most
/// recent pause, which in turn is what it was before.
pub proof fn lemma_play_pause_play_no_drift(t: PomodoroTimer)
    ensures
        t.played().paused().played().remaining == t.played().paused().remaining,
        t.played().paused().played().remaining == t.remaining,
{
}

} // verus!
