//! The acquisition scheduler's decision core.
//!
//! One background task polls the active backend and one foreground
//! task drains the merged event stream — raw key input, data
//! arrivals, and the UI tick.  The tasks themselves (channels, timers,
//! terminal) run outside the library; every decision they act on is
//! made here: what a key press means, how the session state moves on
//! each event, and when the backend's next poll is due, including the
//! immediate re-poll on a filter update.

use vstd::prelude::*;

use crate::stats::SaturationStats;
use crate::text::{trim_of, upper_of, to_upper, trim};

verus! {

/// A key press, reduced to what the key map reads: the key itself and
/// whether it came without modifiers.
#[derive(Debug, Clone, Copy, PartialEq, Eq, Structural)]
pub enum KeyCode {
    Char(char),
    Esc,
    Enter,
    Backspace,
    Left,
    Right,
    Up,
    Down,
    Tab,
    Other,
}

/// One key press of the merged input stream.
#[derive(Debug, Clone, Copy, PartialEq, Eq, Structural)]
pub struct KeyPress {
    pub code: KeyCode,
    /// True when no modifier key was held.
    pub plain: bool,
}

/// What a key press in normal mode asks the session to do.
#[derive(Debug, Clone, Copy, PartialEq, Eq, Structural)]
pub enum Action {
    Break,
    NewAnt,
    DelAnt,
    ToggleLog,
    ToggleStats,
    ChangeYLims,
}

/// The key map of normal mode: `a` and `d` bare manage the antenna
/// filter, Esc bare or `q` quits, `l` toggles log units, `y` opens
/// the chart-limit entry, `s` toggles the saturation table.
pub open spec fn spec_action_of(event: KeyPress) -> Option<Action> {
    if event.code == KeyCode::Char('a') && event.plain {
        Some(Action::NewAnt)
    } else if event.code == KeyCode::Char('d') && event.plain {
        Some(Action::DelAnt)
    } else if (event.code == KeyCode::Esc && event.plain) || event.code == KeyCode::Char('q') {
        Some(Action::Break)
    } else if event.code == KeyCode::Char('l') {
        Some(Action::ToggleLog)
    } else if event.code == KeyCode::Char('y') {
        Some(Action::ChangeYLims)
    } else if event.code == KeyCode::Char('s') {
        Some(Action::ToggleStats)
    } else {
        None
    }
}

impl Action {
    /// Map one key press to its normal-mode action.
    pub fn from_event(event: KeyPress) -> (r: Option<Action>)
        ensures
            r == spec_action_of(event),
    {
        match event.code {
            KeyCode::Char(c) => {
                if c == 'a' && event.plain {
                    Some(Action::NewAnt)
                } else if c == 'd' && event.plain {
                    Some(Action::DelAnt)
                } else if c == 'q' {
                    Some(Action::Break)
                } else if c == 'l' {
                    Some(Action::ToggleLog)
                } else if c == 'y' {
                    Some(Action::ChangeYLims)
                } else if c == 's' {
                    Some(Action::ToggleStats)
                } else {
                    None
                }
            },
            KeyCode::Esc => {
                if event.plain {
                    Some(Action::Break)
                } else {
                    None
                }
            },
            _ => None,
        }
    }
}

/// The antenna-name entry line: its characters and the cursor, always
/// clamped to `0 ..= len`.
pub struct TextInput {
    pub chars: Vec<char>,
    pub cursor: usize,
}

impl TextInput {
    /// The cursor sits within the text.
    pub open spec fn wf(self) -> bool {
        self.cursor <= self.chars@.len()
    }

    /// An empty entry line.
    pub fn new() -> (r: TextInput)
        ensures
            r.wf(),
            r.chars@.len() == 0,
            r.cursor == 0,
    {
        TextInput { chars: Vec::new(), cursor: 0 }
    }

    /// Insert a character at the cursor and step past it.
    pub fn enter_char(&mut self, c: char)
        requires
            old(self).wf(),
        ensures
            final(self).wf(),
            final(self).chars@ == old(self).chars@.insert(old(self).cursor as int, c),
            final(self).cursor == old(self).cursor + 1,
    {
        proof {
            self.chars@.insert_ensures(self.cursor as int, c);
        }
        self.chars.insert(self.cursor, c);
        let n = self.chars.len();
        self.cursor = self.cursor + 1;
    }

    /// Delete the character left of the cursor, if any, and step back.
    pub fn delete_char(&mut self)
        requires
            old(self).wf(),
        ensures
            final(self).wf(),
            old(self).cursor == 0 ==> *final(self) == *old(self),
            old(self).cursor > 0 ==> final(self).chars@ == old(self).chars@.remove(
                old(self).cursor - 1,
            ) && final(self).cursor == old(self).cursor - 1,
    {
        if self.cursor > 0 {
            proof {
                self.chars@.remove_ensures(self.cursor - 1);
            }
            self.chars.remove(self.cursor - 1);
            self.cursor = self.cursor - 1;
        }
    }

    /// Step the cursor left, stopping at the start.
    pub fn move_cursor_left(&mut self)
        requires
            old(self).wf(),
        ensures
            final(self).wf(),
            final(self).chars == old(self).chars,
            final(self).cursor == if old(self).cursor > 0 {
                (old(self).cursor - 1) as int
            } else {
                0
            },
    {
        if self.cursor > 0 {
            self.cursor = self.cursor - 1;
        }
    }

    /// Step the cursor right, stopping at the end of the text.
    pub fn move_cursor_right(&mut self)
        requires
            old(self).wf(),
        ensures
            final(self).wf(),
            final(self).chars == old(self).chars,
            final(self).cursor == if old(self).cursor < old(self).chars@.len() {
                old(self).cursor + 1
            } else {
                old(self).cursor as int
            },
    {
        if self.cursor < self.chars.len() {
            self.cursor = self.cursor + 1;
        }
    }

    /// Clear the line and return the cursor to the start.
    pub fn reset(&mut self)
        ensures
            final(self).wf(),
            final(self).chars@.len() == 0,
            final(self).cursor == 0,
    {
        self.chars.clear();
        self.cursor = 0;
    }

    /// The entered text as a string.
    pub fn text(&self) -> (r: String)
        ensures
            r@ == self.chars@,
    {
        let n = self.chars.len();
        let mut s = String::new();
        let mut i: usize = 0;
        while i < n
            invariant
                n == self.chars@.len(),
                i <= n,
                s@ == self.chars@.subrange(0, i as int),
            decreases n - i,
        {
            crate::text::push_char(&mut s, self.chars[i]);
            proof {
                assert(s@ =~= self.chars@.subrange(0, i + 1));
            }
            i = i + 1;
        }
        proof {
            assert(s@ =~= self.chars@);
        }
        s
    }
}

/// Normalize an entered antenna name as submission does: trim the
/// whitespace, then uppercase.
pub fn normalize_antenna_name(input: &TextInput) -> (r: String)
    ensures
        r@ == upper_of(trim_of(input.chars@)),
{
    let raw = input.text();
    let trimmed = trim(raw.as_str());
    to_upper(trimmed.as_str())
}

/// Timing of the periodic backend poll.
///
/// The deadline starts at once, moves one interval ahead after every
/// poll, and is pulled back to the present by a filter update: the
/// update must not wait out the remainder of the running interval.
pub struct PollSchedule {
    /// Poll interval in milliseconds.
    pub interval_ms: u64,
    /// Time the next poll is due, in the driver's clock.
    pub next_deadline_ms: u64,
}

/// A poll is due once the clock reaches the deadline.
pub open spec fn spec_due(s: PollSchedule, now_ms: int) -> bool {
    now_ms >= s.next_deadline_ms
}

impl PollSchedule {
    /// A schedule whose first poll is due immediately.
    pub fn new(now_ms: u64, interval_ms: u64) -> (r: PollSchedule)
        ensures
            r.interval_ms == interval_ms,
            r.next_deadline_ms == now_ms,
            spec_due(r, now_ms as int),
    {
        PollSchedule { interval_ms, next_deadline_ms: now_ms }
    }

    /// Whether a poll is due at `now_ms`.
    pub fn due(&self, now_ms: u64) -> (r: bool)
        ensures
            r == spec_due(*self, now_ms as int),
    {
        now_ms >= self.next_deadline_ms
    }

    /// Account for a poll fired at `now_ms`: the next one is due a
    /// whole interval later.
    pub fn on_poll(&mut self, now_ms: u64)
        requires
            now_ms + old(self).interval_ms <= u64::MAX,
        ensures
            final(self).interval_ms == old(self).interval_ms,
            final(self).next_deadline_ms == now_ms + old(self).interval_ms,
    {
        self.next_deadline_ms = now_ms + self.interval_ms;
    }

    /// Account for a filter update at `now_ms`: the interval is reset,
    /// not merely restarted — the next poll becomes due immediately.
    pub fn on_filter_update(&mut self, now_ms: u64)
        ensures
            final(self).interval_ms == old(self).interval_ms,
            final(self).next_deadline_ms == now_ms,
            spec_due(*final(self), now_ms as int),
    {
        self.next_deadline_ms = now_ms;
    }
}

/// A filter update arriving mid-interval makes the next poll due at
/// that very moment: however much of the old interval was still to
/// run, after `on_filter_update` at `now_ms` the schedule is due at
/// `now_ms` and at every later instant.
pub proof fn lemma_filter_update_fires_immediately(
    before: PollSchedule,
    after: PollSchedule,
    now_ms: u64,
)
    requires
        after.next_deadline_ms == now_ms,
    ensures
        spec_due(after, now_ms as int),
        forall|later: int| now_ms <= later ==> spec_due(after, later),
        before.next_deadline_ms > now_ms ==> !spec_due(before, now_ms as int),
{
}

/// Which of the foreground's entry surfaces the next key press goes
/// to.
#[derive(Debug, Clone, Copy, PartialEq, Eq, Structural)]
pub enum InputMode {
    Normal,
    AntennaInput,
    RemoveAntenna,
    ChartLims,
}

/// The foreground session state the merged event stream drives.
pub struct SessionState {
    /// Where key presses go.
    pub input_mode: InputMode,
    /// Display units: `None` until the first data arrival fixes it.
    pub log_plot: Option<bool>,
    /// Whether the saturation table is shown.
    pub show_stats: bool,
    /// The session has been asked to end.
    pub quit: bool,
    /// The antenna names currently filtered for.
    pub antenna_filter: Vec<String>,
    /// The antenna-name entry line.
    pub input: TextInput,
    /// A spectrum has arrived and can be drawn.
    pub spectra_present: bool,
    /// Running saturation statistics, once any arrived.
    pub saturations: Option<SaturationStats>,
}

impl SessionState {
    /// A fresh session in normal mode, with the given initial filter.
    pub fn new(antenna_filter: Vec<String>) -> (r: SessionState)
        ensures
            r.input_mode == InputMode::Normal,
            r.log_plot is None,
            !r.show_stats,
            !r.quit,
            r.antenna_filter == antenna_filter,
            r.input.wf(),
            !r.spectra_present,
            r.saturations is None,
    {
        SessionState {
            input_mode: InputMode::Normal,
            log_plot: None,
            show_stats: false,
            quit: false,
            antenna_filter,
            input: TextInput::new(),
            spectra_present: false,
            saturations: None,
        }
    }

    /// Apply one normal-mode action.
    pub fn on_action(&mut self, action: Action)
        ensures
            final(self).antenna_filter == old(self).antenna_filter,
            final(self).spectra_present == old(self).spectra_present,
            final(self).saturations == old(self).saturations,
            final(self).input == old(self).input,
            ({
                let s0 = *old(self);
                let s1 = *final(self);
                match action {
                    Action::Break => s1.quit && s1.input_mode == s0.input_mode && s1.log_plot
                        == s0.log_plot && s1.show_stats == s0.show_stats,
                    Action::NewAnt => s1.input_mode == InputMode::AntennaInput && s1.quit
                        == s0.quit && s1.log_plot == s0.log_plot && s1.show_stats == s0.show_stats,
                    Action::DelAnt => s1.input_mode == InputMode::RemoveAntenna && s1.quit
                        == s0.quit && s1.log_plot == s0.log_plot && s1.show_stats == s0.show_stats,
                    Action::ToggleLog => s1.input_mode == s0.input_mode && s1.quit == s0.quit
                        && s1.show_stats == s0.show_stats && (match s0.log_plot {
                        Some(b) => s1.log_plot == Some(!b),
                        None => s1.log_plot is None,
                    }),
                    Action::ToggleStats => s1.input_mode == s0.input_mode && s1.quit == s0.quit
                        && s1.log_plot == s0.log_plot && s1.show_stats == !s0.show_stats,
                    Action::ChangeYLims => s1.input_mode == InputMode::ChartLims && s1.quit
                        == s0.quit && s1.log_plot == s0.log_plot && s1.show_stats == s0.show_stats,
                }
            }),
    {
        match action {
            Action::Break => {
                self.quit = true;
            },
            Action::NewAnt => {
                self.input_mode = InputMode::AntennaInput;
            },
            Action::DelAnt => {
                self.input_mode = InputMode::RemoveAntenna;
            },
            Action::ToggleLog => {
                match self.log_plot {
                    Some(b) => {
                        self.log_plot = Some(!b);
                    },
                    None => {},
                }
            },
            Action::ToggleStats => {
                self.show_stats = !self.show_stats;
            },
            Action::ChangeYLims => {
                self.input_mode = InputMode::ChartLims;
            },
        }
    }

    /// Account for a data arrival: the spectrum becomes drawable, the
    /// display units follow the first arrival, and a statistics sample
    /// is folded into the running values — blended over `interval_s`
    /// where history of the same width exists, installed where none
    /// does, replacing history of another width.
    pub fn on_data(
        &mut self,
        plot_log: bool,
        new_stats: Option<SaturationStats>,
        interval_s: u32,
    )
        requires
            match old(self).saturations {
                Some(s) => s.wf(),
                None => true,
            },
            match new_stats {
                Some(ref s) => s.wf(),
                None => true,
            },
        ensures
            final(self).spectra_present,
            final(self).log_plot == if old(self).log_plot is None {
                Some(plot_log)
            } else {
                old(self).log_plot
            },
            final(self).input_mode == old(self).input_mode,
            final(self).quit == old(self).quit,
            final(self).antenna_filter == old(self).antenna_filter,
            final(self).input == old(self).input,
            final(self).show_stats == old(self).show_stats,
            match final(self).saturations {
                Some(s) => s.wf(),
                None => true,
            },
            new_stats is None ==> final(self).saturations == old(self).saturations,
            ({
                let s0 = *old(self);
                let s1 = *final(self);
                new_stats matches Some(ns) ==> (s0.saturations is None ==> s1.saturations == Some(
                    ns,
                ))
            }),
            ({
                let s0 = *old(self);
                let s1 = *final(self);
                new_stats matches Some(ns) ==> (s0.saturations matches Some(s)
                    ==> s1.saturations matches Some(s2) && (s.ppm@.len() == ns.ppm@.len()
                    ==> s2.ppm@.len() == s.ppm@.len() && (forall|i: int|
                    0 <= i < s2.ppm@.len() ==> #[trigger] s2.ppm@[i] == crate::stats::spec_blend(
                        s.ppm@[i] as int,
                        ns.ppm@[i] as int,
                        interval_s as int,
                    ))) && (s.ppm@.len() != ns.ppm@.len() ==> s2.ppm@ == ns.ppm@))
            }),
    {
        self.spectra_present = true;
        if self.log_plot.is_none() {
            self.log_plot = Some(plot_log);
        }
        match new_stats {
            Some(ns) => {
                match &mut self.saturations {
                    Some(stats) => {
                        stats.update(&ns, interval_s);
                    },
                    None => {
                        self.saturations = Some(ns);
                    },
                }
            },
            None => {},
        }
    }

    /// Submit the entered antenna name: trimmed and uppercased, an
    /// empty result is dropped, anything else joins the filter; the
    /// entry line clears and normal mode returns either way.  The
    /// returned flag says whether the filter changed and must be
    /// pushed to the backend.
    pub fn submit_antenna_filter(&mut self) -> (submitted: bool)
        requires
            old(self).input.wf(),
        ensures
            final(self).input.wf(),
            final(self).input_mode == InputMode::Normal,
            final(self).input.chars@.len() == 0,
            final(self).quit == old(self).quit,
            final(self).log_plot == old(self).log_plot,
            final(self).spectra_present == old(self).spectra_present,
            final(self).show_stats == old(self).show_stats,
            final(self).saturations == old(self).saturations,
            submitted <==> upper_of(trim_of(old(self).input.chars@)).len() != 0,
            ({
                let s0 = *old(self);
                let s1 = *final(self);
                submitted ==> s1.antenna_filter@.len() == s0.antenna_filter@.len() + 1 && (forall|
                    i: int,
                |
                    0 <= i < s0.antenna_filter@.len() ==> #[trigger] s1.antenna_filter@[i]
                        == s0.antenna_filter@[i]) && s1.antenna_filter@[s0.antenna_filter@.len() as int]@
                    == upper_of(trim_of(s0.input.chars@))
            }),
            !submitted ==> final(self).antenna_filter == old(self).antenna_filter,
    {
        let name = normalize_antenna_name(&self.input);
        let empty = name.as_str().unicode_len() == 0;
        self.input.reset();
        self.input_mode = InputMode::Normal;
        if empty {
            false
        } else {
            self.antenna_filter.push(name);
            true
        }
    }

    /// Remove the filter entry at `i` and return to normal mode; an
    /// index outside the filter removes nothing.
    pub fn remove_antenna(&mut self, i: usize) -> (removed: bool)
        ensures
            final(self).input_mode == InputMode::Normal,
            final(self).input == old(self).input,
            final(self).quit == old(self).quit,
            final(self).log_plot == old(self).log_plot,
            final(self).show_stats == old(self).show_stats,
            final(self).spectra_present == old(self).spectra_present,
            final(self).saturations == old(self).saturations,
            removed <==> i < old(self).antenna_filter@.len(),
            removed ==> final(self).antenna_filter@ == old(self).antenna_filter@.remove(i as int),
            !removed ==> final(self).antenna_filter == old(self).antenna_filter,
    {
        self.input_mode = InputMode::Normal;
        if i < self.antenna_filter.len() {
            proof {
                self.antenna_filter@.remove_ensures(i as int);
            }
            self.antenna_filter.remove(i);
            true
        } else {
            false
        }
    }
}

} // verus!
