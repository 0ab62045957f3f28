//! The modal input state machine: raw bytes and the current UI mode in,
//! at most one high-level UI event out, with a tick-timed two-press chord.

use vstd::prelude::*;
use crate::app::{Mode, Pane};
use crate::timer::TARGET_TIMER_HZ;

verus! {

/// Ticks within which the second press of a chord must arrive.
pub const SEQUENCE_TIMEOUT_TICKS: u64 = TARGET_TIMER_HZ / 2;

/// The multi-key chords the machine tracks; only the double `g` exists.
#[derive(Clone, Copy, PartialEq, Eq, Structural, Debug)]
pub enum Sequence {
    DoubleG,
}

/// A high-level UI event, at most one per drained byte.
#[derive(Clone, Copy, PartialEq, Eq, Structural, Debug)]
pub enum InputEvent {
    Quit,
    ScrollToTop,
    ScrollToBottom,
    ScrollUp,
    ScrollDown,
    PageUp,
    PageDown,
    SelectPane(Pane),
    EnterSearchMode,
    ConfirmSearch,
    ExitSearchMode,
    SearchInput(u8),
    SearchBackspace,
    NextMatch,
    PrevMatch,
}

/// Transient chord-tracking state: which chord is pending and since when.
pub struct Input {
    pub in_sequence: Option<Sequence>,
    pub in_sequence_since: u64,
}

/// `a - b`, saturating at zero.
pub open spec fn sat_sub(a: u64, b: u64) -> u64 {
    if a >= b {
        (a - b) as u64
    } else {
        0u64
    }
}

/// A pending chord completes at tick `now` when the elapsed ticks since it
/// was recorded are within the timeout window.
pub open spec fn chord_completes(st: Input, now: u64) -> bool {
    st.in_sequence is Some && sat_sub(now, st.in_sequence_since) <= SEQUENCE_TIMEOUT_TICKS
}

/// The chord state after the chord-trigger byte at tick `now`: no pending
/// chord records one; a timed-out pending chord restarts at `now`; a live
/// pending chord completes and clears.
pub open spec fn spec_chord_step(st: Input, now: u64) -> Input {
    match st.in_sequence {
        None => Input { in_sequence: Some(Sequence::DoubleG), in_sequence_since: now },
        Some(_) => {
            if sat_sub(now, st.in_sequence_since) > SEQUENCE_TIMEOUT_TICKS {
                Input { in_sequence: st.in_sequence, in_sequence_since: now }
            } else {
                Input { in_sequence: None, in_sequence_since: st.in_sequence_since }
            }
        },
    }
}

/// The event a byte produces in search-input mode.
pub open spec fn spec_search_event(byte: u8) -> Option<InputEvent> {
    if byte == 0x1b {
        Some(InputEvent::ExitSearchMode)
    } else if byte == 0x7f || byte == 0x08 {
        Some(InputEvent::SearchBackspace)
    } else if byte == 0x0d {
        Some(InputEvent::ConfirmSearch)
    } else if 0x20 <= byte && byte < 0x7f {
        Some(InputEvent::SearchInput(byte))
    } else {
        None
    }
}

/// The event a byte produces in search-results mode.
pub open spec fn spec_results_event(byte: u8) -> Option<InputEvent> {
    if byte == 0x1b || byte == 0x0d {
        Some(InputEvent::ExitSearchMode)
    } else if byte == 110 {  // 'n'
        Some(InputEvent::NextMatch)
    } else if byte == 78 {  // 'N'
        Some(InputEvent::PrevMatch)
    } else if byte == 47 {  // '/'
        Some(InputEvent::EnterSearchMode)
    } else {
        None
    }
}

/// Whether a byte is one of navigation mode's direct commands (everything
/// but the chord trigger and the unrecognized bytes).
pub open spec fn spec_nav_direct(pane: Pane, byte: u8) -> Option<InputEvent> {
    if byte == 113 {  // 'q'
        Some(InputEvent::Quit)
    } else if byte == 47 && pane.spec_searchable() {  // '/'
        Some(InputEvent::EnterSearchMode)
    } else if byte == 99 {  // 'c'
        Some(InputEvent::SelectPane(Pane::Cpuid))
    } else if byte == 102 {  // 'f'
        Some(InputEvent::SelectPane(Pane::Fpu))
    } else if byte == 120 {  // 'x'
        Some(InputEvent::SelectPane(Pane::Xsave))
    } else if byte == 116 {  // 't'
        Some(InputEvent::SelectPane(Pane::Timer))
    } else if byte == 109 {  // 'm'
        Some(InputEvent::SelectPane(Pane::Msr))
    } else if byte == 106 {  // 'j'
        Some(InputEvent::ScrollDown)
    } else if byte == 107 {  // 'k'
        Some(InputEvent::ScrollUp)
    } else if byte == 71 {  // 'G'
        Some(InputEvent::ScrollToBottom)
    } else if byte == 0x06 {
        Some(InputEvent::PageDown)
    } else if byte == 0x02 {
        Some(InputEvent::PageUp)
    } else {
        None
    }
}

/// The event `handle_byte` returns.
pub open spec fn spec_handle_byte_event(
    st: Input,
    mode: Mode,
    pane: Pane,
    byte: u8,
    now: u64,
) -> Option<InputEvent> {
    match mode {
        Mode::Search => spec_search_event(byte),
        Mode::SearchResults => spec_results_event(byte),
        Mode::Navigation => {
            if byte == 103 {  // 'g': the chord trigger
                if chord_completes(st, now) {
                    Some(InputEvent::ScrollToTop)
                } else {
                    None
                }
            } else {
                spec_nav_direct(pane, byte)
            }
        },
    }
}

/// The chord state `handle_byte` leaves behind: only navigation mode
/// touches it; the trigger byte steps the chord, a recognized command
/// leaves it alone, and any unrecognized byte cancels it.
pub open spec fn spec_handle_byte_state(
    st: Input,
    mode: Mode,
    pane: Pane,
    byte: u8,
    now: u64,
) -> Input {
    match mode {
        Mode::Search => st,
        Mode::SearchResults => st,
        Mode::Navigation => {
            if byte == 103 {
                spec_chord_step(st, now)
            } else if spec_nav_direct(pane, byte) is Some {
                st
            } else {
                Input { in_sequence: None, in_sequence_since: st.in_sequence_since }
            }
        },
    }
}

impl Input {
    pub open spec fn spec_pending(&self) -> bool {
        self.in_sequence is Some
    }

    pub open spec fn spec_pending_since(&self) -> u64 {
        self.in_sequence_since
    }

    pub fn new() -> (r: Self)
        ensures
            !r.spec_pending(),
            r.spec_pending_since() == 0,
    {
        Input { in_sequence: None, in_sequence_since: 0 }
    }

    /// Step the chord state on the trigger byte; true exactly when the
    /// chord completed.
    fn handle_sequence(&mut self, now: u64) -> (r: bool)
        ensures
            r == chord_completes(*old(self), now),
            *final(self) == spec_chord_step(*old(self), now),
    {
        match self.in_sequence {
            None => {
                self.in_sequence = Some(Sequence::DoubleG);
                self.in_sequence_since = now;
                false
            },
            Some(_) => {
                let delta = if now >= self.in_sequence_since {
                    now - self.in_sequence_since
                } else {
                    0
                };
                if delta > SEQUENCE_TIMEOUT_TICKS {
                    // timeout expired: this press starts a new pending chord
                    self.in_sequence_since = now;
                    false
                } else {
                    self.in_sequence = None;
                    true
                }
            },
        }
    }

    /// Turn one drained byte into at most one UI event, given the current
    /// mode, the active pane and the current tick count. Unrecognized
    /// bytes are ignored, never reported as errors.
    pub fn handle_byte(&mut self, mode: Mode, pane: Pane, byte: u8, now: u64) -> (r: Option<
        InputEvent,
    >)
        ensures
            r == spec_handle_byte_event(*old(self), mode, pane, byte, now),
            *final(self) == spec_handle_byte_state(*old(self), mode, pane, byte, now),
    {
        match mode {
            Mode::Search => {
                if byte == 0x1b {
                    Some(InputEvent::ExitSearchMode)
                } else if byte == 0x7f || byte == 0x08 {
                    Some(InputEvent::SearchBackspace)
                } else if byte == 0x0d {
                    Some(InputEvent::ConfirmSearch)
                } else if 0x20 <= byte && byte < 0x7f {
                    Some(InputEvent::SearchInput(byte))
                } else {
                    None
                }
            },
            Mode::SearchResults => {
                if byte == 0x1b || byte == 0x0d {
                    Some(InputEvent::ExitSearchMode)
                } else if byte == 110  /* 'n' */ {
                    Some(InputEvent::NextMatch)
                } else if byte == 78  /* 'N' */ {
                    Some(InputEvent::PrevMatch)
                } else if byte == 47  /* '/' */ {
                    Some(InputEvent::EnterSearchMode)
                } else {
                    None
                }
            },
            Mode::Navigation => {
                if byte == 103  /* 'g' */ {
                    let finished = self.handle_sequence(now);
                    if finished {
                        Some(InputEvent::ScrollToTop)
                    } else {
                        None
                    }
                } else if byte == 113  /* 'q' */ {
                    Some(InputEvent::Quit)
                } else if byte == 47  /* '/' */ && pane.searchable() {
                    Some(InputEvent::EnterSearchMode)
                } else if byte == 99  /* 'c' */ {
                    Some(InputEvent::SelectPane(Pane::Cpuid))
                } else if byte == 102  /* 'f' */ {
                    Some(InputEvent::SelectPane(Pane::Fpu))
                } else if byte == 120  /* 'x' */ {
                    Some(InputEvent::SelectPane(Pane::Xsave))
                } else if byte == 116  /* 't' */ {
                    Some(InputEvent::SelectPane(Pane::Timer))
                } else if byte == 109  /* 'm' */ {
                    Some(InputEvent::SelectPane(Pane::Msr))
                } else if byte == 106  /* 'j' */ {
                    Some(InputEvent::ScrollDown)
                } else if byte == 107  /* 'k' */ {
                    Some(InputEvent::ScrollUp)
                } else if byte == 71  /* 'G' */ {
                    Some(InputEvent::ScrollToBottom)
                } else if byte == 0x06 {
                    Some(InputEvent::PageDown)
                } else if byte == 0x02 {
                    Some(InputEvent::PageUp)
                } else {
                    // any other byte aborts an ongoing chord
                    self.in_sequence = None;
                    None
                }
            },
        }
    }
}

/// Chord-timeout law, first half: pressing the trigger with no chord
/// pending emits nothing; pressing it again within the timeout window
/// emits the chord event exactly once and clears the pending chord.
pub proof fn lemma_chord_within_window(st: Input, pane: Pane, t1: u64, t2: u64)
    requires
        !st.spec_pending(),
        t1 <= t2,
        t2 - t1 <= SEQUENCE_TIMEOUT_TICKS,
    ensures
        spec_handle_byte_event(st, Mode::Navigation, pane, 103, t1) is None,
        spec_handle_byte_event(
            spec_handle_byte_state(st, Mode::Navigation, pane, 103, t1),
            Mode::Navigation,
            pane,
            103,
            t2,
        ) == Some(InputEvent::ScrollToTop),
        !spec_handle_byte_state(
            spec_handle_byte_state(st, Mode::Navigation, pane, 103, t1),
            Mode::Navigation,
            pane,
            103,
            t2,
        ).spec_pending(),
{
}

/// Chord-timeout law, second half: when the second press comes after the
/// timeout window it does not emit the chord event; it restarts the chord
/// instead, so a third press within the window of the second does emit it.
pub proof fn lemma_chord_after_timeout(st: Input, pane: Pane, t1: u64, t2: u64)
    requires
        !st.spec_pending(),
        t1 <= t2,
        t2 - t1 > SEQUENCE_TIMEOUT_TICKS,
    ensures
        spec_handle_byte_event(
            spec_handle_byte_state(st, Mode::Navigation, pane, 103, t1),
            Mode::Navigation,
            pane,
            103,
            t2,
        ) is None,
        spec_handle_byte_state(
            spec_handle_byte_state(st, Mode::Navigation, pane, 103, t1),
            Mode::Navigation,
            pane,
            103,
            t2,
        ).spec_pending(),
        spec_handle_byte_state(
            spec_handle_byte_state(st, Mode::Navigation, pane, 103, t1),
            Mode::Navigation,
            pane,
            103,
            t2,
        ).spec_pending_since() == t2,
{
}

} // verus!
