use vstd::prelude::*;

use crate::digits::{dec_digits, dec_string, pad2_digits, pad2_string};
use crate::errors::BlockError;
use crate::template::{parse_fmt, render_parts, PartView, Template};
use crate::timer::{Phase, PomodoroTimer};

verus! {

/// The mouse button carried by an input event; anything but the left and
/// right buttons is ignored by the block.
#[derive(Clone, Copy, PartialEq, Eq, Structural, Debug)]
pub enum MouseButton {
    Left,
    Right,
    Other,
}

/// An input event as the host forwards it: the id of the widget it is aimed
/// at, and the button that was pressed.
pub struct ClickEvent {
    pub target_id: String,
    pub button: MouseButton,
}

/// The block's configuration, with all durations in seconds.
#[derive(Clone, Debug)]
pub struct PomBlockConfig {
    /// Poll cadence requested from the host.
    pub interval: u64,
    /// Length of a work interval.
    pub pomodoro_length: u64,
    /// Length of a short break.
    pub break_length: u64,
    /// Length of a long break.
    pub long_break_length: u64,
    /// Work intervals per long-break cycle.
    pub rounds: u64,
    /// Whether phase transitions should signal a notification.
    pub notification: bool,
    /// The display template.
    pub format: String,
}

impl PomBlockConfig {
    /// Whether the timer settings pass construction-time validation: every
    /// length and the round count must be at least 1.
    pub open spec fn valid_timer_settings(self) -> bool {
        &&& self.pomodoro_length >= 1
        &&& self.break_length >= 1
        &&& self.long_break_length >= 1
        &&& self.rounds >= 1
    }

    /// Default poll cadence: one second.
    pub fn default_interval() -> (r: u64)
        ensures
            r == 1,
    {
        1
    }

    /// Default work interval: twenty-five minutes.
    pub fn default_pom_len() -> (r: u64)
        ensures
            r == 1500,
    {
        25 * 60
    }

    /// Default short break: five minutes.
    pub fn default_break_len() -> (r: u64)
        ensures
            r == 300,
    {
        5 * 60
    }

    /// Default long break: fifteen minutes.
    pub fn default_long_break_len() -> (r: u64)
        ensures
            r == 900,
    {
        15 * 60
    }

    /// Default rounds per cycle.
    pub fn default_round() -> (r: u64)
        ensures
            r == 4,
    {
        4
    }

    /// Notifications are on by default.
    pub fn default_notification() -> (r: bool)
        ensures
            r,
    {
        true
    }

    /// The default display template.
    pub fn default_format() -> (r: String)
        ensures
            r@ == "{phase} {remainingMinutes}:{remainingSeconds} {round}"@,
    {
        String::from_str("{phase} {remainingMinutes}:{remainingSeconds} {round}")
    }
}

/// The display name of a phase.
pub open spec fn phase_text(p: Phase) -> Seq<char> {
    match p {
        Phase::Work => "Work"@,
        Phase::ShortBreak => "Short Break"@,
        Phase::LongBreak => "Long Break"@,
    }
}

/// The display name of a phase, as executable text.
pub fn phase_name(p: Phase) -> (r: &'static str)
    ensures
        r@ == phase_text(p),
{
    match p {
        Phase::Work => "Work",
        Phase::ShortBreak => "Short Break",
        Phase::LongBreak => "Long Break",
    }
}

/// The text a template renders to for a given timer state: the phase name,
/// the remaining time split into zero-padded minutes and seconds, and the
/// round count, substituted into the template's parts.
pub open spec fn status_text(parts: Seq<PartView>, t: PomodoroTimer) -> Seq<char> {
    render_parts(
        parts,
        phase_text(t.phase),
        pad2_digits(t.remaining as nat / 60),
        pad2_digits(t.remaining as nat % 60),
        dec_digits(t.round as nat),
    )
}

/// Relies on uuid's `Uuid::new_v4` and its `Simple` display form: a freshly
/// drawn random identifier, rendered as exactly 32 characters.
#[verifier::external_body]
fn fresh_id() -> (r: String)
    ensures
        r@.len() == 32,
{
    uuid::Uuid::new_v4().simple().to_string()
}

/// The status-bar block: a pomodoro timer, the compiled display template,
/// a process-unique id for input routing, and the last rendered text.
pub struct PomBlock {
    /// Process-unique identifier; input events are routed by it.
    pub id: String,
    /// Poll cadence handed back to the host after each update, in seconds;
    /// also the tick quantum of one update.
    pub update_interval: u64,
    /// The timer state machine this block owns.
    pub pomodoro: PomodoroTimer,
    /// The compiled display template.
    pub format: Template,
    /// The text rendered by the most recent update; empty before the first.
    pub display_text: String,
}

impl PomBlock {
    /// The block is internally consistent when its timer is.
    pub open spec fn wf(self) -> bool {
        self.pomodoro.wf()
    }

    /// Builds a block from its configuration: a paused timer in the work
    /// phase, the compiled template, and a fresh id. Zero lengths or a zero
    /// round count are a `ConfigurationError`; an ill-formed template is a
    /// `TemplateError`; the first is reported when both hold.
    pub fn new(block_config: PomBlockConfig) -> (r: Result<PomBlock, BlockError>)
        ensures
            r is Ok <==> (block_config.valid_timer_settings() && parse_fmt(block_config.format@)
                is Some),
            r matches Ok(b) ==> {
                &&& b.wf()
                &&& b.pomodoro == (PomodoroTimer {
                    phase: Phase::Work,
                    remaining: block_config.pomodoro_length,
                    round: 1,
                    running: false,
                    notify: block_config.notification,
                    work_len: block_config.pomodoro_length,
                    break_len: block_config.break_length,
                    long_break_len: block_config.long_break_length,
                    rounds_per_cycle: block_config.rounds,
                })
                &&& b.update_interval == block_config.interval
                &&& Some(b.format@) == parse_fmt(block_config.format@)
                &&& b.display_text@ == Seq::<char>::empty()
                &&& b.id@.len() == 32
            },
            !block_config.valid_timer_settings() ==> r matches Err(
                BlockError::ConfigurationError,
            ),
            block_config.valid_timer_settings() && parse_fmt(block_config.format@) is None
                ==> r matches Err(BlockError::TemplateError),
    {
        let pomodoro = match PomodoroTimer::new(
            block_config.pomodoro_length,
            block_config.break_length,
            block_config.long_break_length,
            block_config.rounds,
            block_config.notification,
        ) {
            Ok(t) => t,
            Err(e) => {
                return Err(e);
            },
        };
        let format = match Template::from_string(block_config.format.as_str()) {
            Ok(t) => t,
            Err(e) => {
                return Err(e);
            },
        };
        Ok(
            PomBlock {
                id: fresh_id(),
                update_interval: block_config.interval,
                pomodoro,
                format,
                display_text: String::new(),
            },
        )
    }

    /// One poll. The timer advances by the configured interval — the tick
    /// quantum under the at-most-once-per-interval polling model — the new
    /// status is rendered into the template and stored, and the text comes
    /// back together with the delay before the next poll is due.
    pub fn update(&mut self) -> (r: (String, u64))
        requires
            old(self).wf(),
        ensures
            final(self).wf(),
            final(self).pomodoro == old(self).pomodoro.ticked(old(self).update_interval),
            final(self).display_text@ == status_text(old(self).format@, final(self).pomodoro),
            final(self).id == old(self).id,
            final(self).update_interval == old(self).update_interval,
            final(self).format == old(self).format,
            r.0@ == final(self).display_text@,
            r.1 == old(self).update_interval,
    {
        let st = self.pomodoro.tick(self.update_interval);
        let minutes_s = pad2_string(st.remaining / 60);
        let seconds_s = pad2_string(st.remaining % 60);
        let round_s = dec_string(st.round);
        let text = self.format.render(
            phase_name(st.phase),
            minutes_s.as_str(),
            seconds_s.as_str(),
            round_s.as_str(),
        );
        self.display_text = text.clone();
        (text, self.update_interval)
    }

    /// Routes an input event: an event aimed at another widget, or with a
    /// button the block does not use, changes nothing; the left button
    /// starts the timer, the right one pauses it. Always succeeds.
    pub fn click(&mut self, event: &ClickEvent) -> (r: Result<(), BlockError>)
        ensures
            r is Ok,
            event.target_id@ == old(self).id@ && event.button is Left ==> *final(self) == (
            PomBlock { pomodoro: old(self).pomodoro.played(), ..*old(self) }),
            event.target_id@ == old(self).id@ && event.button is Right ==> *final(self) == (
            PomBlock { pomodoro: old(self).pomodoro.paused(), ..*old(self) }),
            event.target_id@ != old(self).id@ || event.button is Other ==> *final(self) == *old(
                self,
            ),
    {
        if self.id == event.target_id {
            match event.button {
                MouseButton::Left => self.pomodoro.play(),
                MouseButton::Right => self.pomodoro.pause(),
                MouseButton::Other => {},
            }
        }
        Ok(())
    }

    /// The block's id, for event routing.
    pub fn id(&self) -> (r: &str)
        ensures
            r@ == self.id@,
    {
        self.id.as_str()
    }

    /// The last rendered text, as a read-only snapshot.
    pub fn text(&self) -> (r: &str)
        ensures
            r@ == self.display_text@,
    {
        self.display_text.as_str()
    }
}

} // verus!
