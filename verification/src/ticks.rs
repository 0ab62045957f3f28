//! Tick source and derived event counters.
//!
//! The platform's timer interrupt calls `on_timer_tick` once per firing; the
//! main loop reads the derived counters with an atomic read-and-clear, so a
//! slow poll accumulates events rather than losing them.

use vstd::prelude::*;
use crate::timer::TARGET_TIMER_HZ;

verus! {

/// Ticks per second-event (one second at `TARGET_TIMER_HZ`).
pub const TICKS_PER_SECOND: u64 = TARGET_TIMER_HZ;

/// Ticks per print-event.
pub const TICKS_PER_EVENT: u64 = TARGET_TIMER_HZ;

/// The monotonic tick count and the two derived "something happened"
/// counters, incremented in interrupt context and drained by the main loop.
pub struct TickCounters {
    ticks: u64,
    second_events: u64,
    print_events: u64,
}

impl TickCounters {
    pub fn new() -> (r: Self)
        ensures
            r.spec_ticks() == 0,
            r.spec_second_events() == 0,
            r.spec_print_events() == 0,
    {
        TickCounters { ticks: 0, second_events: 0, print_events: 0 }
    }

    pub closed spec fn spec_ticks(&self) -> u64 {
        self.ticks
    }

    pub closed spec fn spec_second_events(&self) -> u64 {
        self.second_events
    }

    pub closed spec fn spec_print_events(&self) -> u64 {
        self.print_events
    }

    /// One timer interrupt: the tick count rises by exactly one, and each
    /// derived counter rises by one exactly when the new tick count crosses
    /// its divisor boundary.
    pub fn on_timer_tick(&mut self)
        requires
            old(self).spec_ticks() < u64::MAX,
            old(self).spec_second_events() < u64::MAX,
            old(self).spec_print_events() < u64::MAX,
        ensures
            final(self).spec_ticks() == old(self).spec_ticks() + 1,
            final(self).spec_second_events() == if (old(self).spec_ticks() + 1) as int
                % TICKS_PER_SECOND as int == 0 {
                old(self).spec_second_events() + 1
            } else {
                old(self).spec_second_events() as int
            },
            final(self).spec_print_events() == if (old(self).spec_ticks() + 1) as int
                % TICKS_PER_EVENT as int == 0 {
                old(self).spec_print_events() + 1
            } else {
                old(self).spec_print_events() as int
            },
    {
        self.ticks = self.ticks + 1;
        if self.ticks % TICKS_PER_SECOND == 0 {
            self.second_events = self.second_events + 1;
        }
        if self.ticks % TICKS_PER_EVENT == 0 {
            self.print_events = self.print_events + 1;
        }
    }

    /// The current tick count since boot: monotonic, never reset.
    pub fn tick_count(&self) -> (r: u64)
        ensures
            r == self.spec_ticks(),
    {
        self.ticks
    }

    /// Fetch-and-zero of the second-event counter. The value returned is the
    /// exact number of divisor-boundary crossings since the previous
    /// read-and-clear; a second call with no interrupt in between therefore
    /// returns zero, never double-counting a crossing.
    pub fn read_and_clear_second_events(&mut self) -> (r: u64)
        ensures
            r == old(self).spec_second_events(),
            final(self).spec_second_events() == 0,
            final(self).spec_ticks() == old(self).spec_ticks(),
            final(self).spec_print_events() == old(self).spec_print_events(),
    {
        let n = self.second_events;
        self.second_events = 0;
        n
    }

    /// Fetch-and-zero of the print-event counter, with the same guarantee as
    /// `read_and_clear_second_events`.
    pub fn read_and_clear_print_events(&mut self) -> (r: u64)
        ensures
            r == old(self).spec_print_events(),
            final(self).spec_print_events() == 0,
            final(self).spec_ticks() == old(self).spec_ticks(),
            final(self).spec_second_events() == old(self).spec_second_events(),
    {
        let n = self.print_events;
        self.print_events = 0;
        n
    }
}

} // verus!
