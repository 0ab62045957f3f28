use cpu_console::{
    calibrated_frequency, hsv_to_rgb, reload_for_target, tsc_frequency, uptime_display, ByteQueue,
    Input, InputEvent, Mode, Pane, ScrollDirection, ScrollHints, TickCounters, TimerState, Uptime,
    FALLBACK_RELOAD, QUEUE_CAPACITY, SEQUENCE_TIMEOUT_TICKS, TARGET_TIMER_HZ,
};

#[test]
fn scroll_update_from_render_formulas() {
    let mut hints = ScrollHints::default();
    hints.update_from_render(50, 20);
    assert_eq!(hints.max_offset, 30);
    assert_eq!(hints.page_height, 18);

    let mut short = ScrollHints::default();
    short.update_from_render(10, 20);
    assert_eq!(short.max_offset, 0);
    assert_eq!(short.page_height, 18);
}

#[test]
fn scroll_stays_within_bounds() {
    let mut hints = ScrollHints::default();
    hints.update_from_render(30, 10);
    assert_eq!(hints.max_offset, 20);

    // up from zero stays at zero
    hints.scroll(ScrollDirection::Up);
    assert_eq!(hints.y_offset, 0);

    // page past the bottom clamps
    for _ in 0..10 {
        hints.scroll(ScrollDirection::PageDown);
        assert!(hints.y_offset <= hints.max_offset);
    }
    assert_eq!(hints.y_offset, hints.max_offset);

    // one past the bottom stays put
    hints.scroll(ScrollDirection::Down);
    assert_eq!(hints.y_offset, hints.max_offset);

    hints.scroll(ScrollDirection::Top);
    assert_eq!(hints.y_offset, 0);
    hints.scroll(ScrollDirection::Bottom);
    assert_eq!(hints.y_offset, 20);
    hints.scroll(ScrollDirection::PageUp);
    assert_eq!(hints.y_offset, 12);
    hints.scroll(ScrollDirection::Down);
    assert_eq!(hints.y_offset, 13);
}

#[test]
fn scroll_to_clamps() {
    let mut hints = ScrollHints::default();
    hints.update_from_render(25, 5);
    assert_eq!(hints.max_offset, 20);
    hints.scroll_to(7);
    assert_eq!(hints.y_offset, 7);
    hints.scroll_to(100);
    assert_eq!(hints.y_offset, 20);
}

#[test]
fn update_from_render_clamps_offset() {
    let mut hints = ScrollHints::default();
    hints.update_from_render(100, 10);
    hints.scroll(ScrollDirection::Bottom);
    assert_eq!(hints.y_offset, 90);
    hints.update_from_render(20, 10);
    assert_eq!(hints.max_offset, 10);
    assert_eq!(hints.y_offset, 10);
}

#[test]
fn tick_counter_boundaries() {
    let mut counters = TickCounters::new();
    assert_eq!(counters.tick_count(), 0);
    for _ in 0..TARGET_TIMER_HZ {
        counters.on_timer_tick();
    }
    assert_eq!(counters.tick_count(), TARGET_TIMER_HZ);
    assert_eq!(counters.read_and_clear_second_events(), 1);
    assert_eq!(counters.read_and_clear_print_events(), 1);
}

#[test]
fn tick_counter_read_and_clear_is_exact() {
    let mut counters = TickCounters::new();
    for _ in 0..(3 * TARGET_TIMER_HZ) {
        counters.on_timer_tick();
    }
    // the true count, then zero: no crossing is lost or double-counted
    assert_eq!(counters.read_and_clear_second_events(), 3);
    assert_eq!(counters.read_and_clear_second_events(), 0);
    assert_eq!(counters.read_and_clear_print_events(), 3);
    assert_eq!(counters.read_and_clear_print_events(), 0);
    // safe to call with no interrupt ever fired
    let mut idle = TickCounters::new();
    assert_eq!(idle.read_and_clear_second_events(), 0);
}

#[test]
fn queue_keeps_fifo_order_and_drops_excess() {
    let mut queue = ByteQueue::new();
    let mut accepted = 0usize;
    for i in 0..300usize {
        if queue.enqueue((i % 256) as u8) {
            accepted += 1;
        }
    }
    // exactly the capacity was accepted, the excess dropped
    assert_eq!(accepted, QUEUE_CAPACITY);
    assert_eq!(queue.len(), QUEUE_CAPACITY);
    // and what comes out is the accepted prefix, in order
    for i in 0..accepted {
        assert_eq!(queue.dequeue(), Some((i % 256) as u8));
    }
    assert_eq!(queue.dequeue(), None);
}

#[test]
fn queue_interleaved_enqueue_dequeue() {
    let mut queue = ByteQueue::new();
    assert!(queue.enqueue(1));
    assert!(queue.enqueue(2));
    assert_eq!(queue.dequeue(), Some(1));
    assert!(queue.enqueue(3));
    assert_eq!(queue.dequeue(), Some(2));
    assert_eq!(queue.dequeue(), Some(3));
    assert_eq!(queue.dequeue(), None);
}

#[test]
fn chord_within_timeout_emits_once() {
    let mut input = Input::new();
    let first = input.handle_byte(Mode::Navigation, Pane::Cpuid, b'g', 100);
    assert_eq!(first, None);
    let second = input.handle_byte(
        Mode::Navigation,
        Pane::Cpuid,
        b'g',
        100 + SEQUENCE_TIMEOUT_TICKS,
    );
    assert_eq!(second, Some(InputEvent::ScrollToTop));
    // the chord is consumed: a third press starts over
    let third = input.handle_byte(Mode::Navigation, Pane::Cpuid, b'g', 100 + SEQUENCE_TIMEOUT_TICKS);
    assert_eq!(third, None);
}

#[test]
fn chord_after_timeout_restarts() {
    let mut input = Input::new();
    assert_eq!(input.handle_byte(Mode::Navigation, Pane::Cpuid, b'g', 0), None);
    // past the window: no event, but the chord restarts at the new tick
    let late = input.handle_byte(
        Mode::Navigation,
        Pane::Cpuid,
        b'g',
        SEQUENCE_TIMEOUT_TICKS + 1,
    );
    assert_eq!(late, None);
    // within the window of the restarted chord it completes
    let done = input.handle_byte(
        Mode::Navigation,
        Pane::Cpuid,
        b'g',
        SEQUENCE_TIMEOUT_TICKS + 2,
    );
    assert_eq!(done, Some(InputEvent::ScrollToTop));
}

#[test]
fn chord_cancelled_by_other_byte() {
    let mut input = Input::new();
    assert_eq!(input.handle_byte(Mode::Navigation, Pane::Cpuid, b'g', 0), None);
    // an unrecognized byte aborts the pending chord
    assert_eq!(input.handle_byte(Mode::Navigation, Pane::Cpuid, b'z', 1), None);
    assert_eq!(input.handle_byte(Mode::Navigation, Pane::Cpuid, b'g', 2), None);
}

#[test]
fn navigation_byte_mapping() {
    let mut input = Input::new();
    let m = Mode::Navigation;
    assert_eq!(input.handle_byte(m, Pane::Cpuid, b'q', 0), Some(InputEvent::Quit));
    assert_eq!(
        input.handle_byte(m, Pane::Cpuid, b'c', 0),
        Some(InputEvent::SelectPane(Pane::Cpuid))
    );
    assert_eq!(
        input.handle_byte(m, Pane::Cpuid, b'f', 0),
        Some(InputEvent::SelectPane(Pane::Fpu))
    );
    assert_eq!(
        input.handle_byte(m, Pane::Cpuid, b'x', 0),
        Some(InputEvent::SelectPane(Pane::Xsave))
    );
    assert_eq!(
        input.handle_byte(m, Pane::Cpuid, b't', 0),
        Some(InputEvent::SelectPane(Pane::Timer))
    );
    assert_eq!(
        input.handle_byte(m, Pane::Cpuid, b'm', 0),
        Some(InputEvent::SelectPane(Pane::Msr))
    );
    assert_eq!(input.handle_byte(m, Pane::Cpuid, b'j', 0), Some(InputEvent::ScrollDown));
    assert_eq!(input.handle_byte(m, Pane::Cpuid, b'k', 0), Some(InputEvent::ScrollUp));
    assert_eq!(input.handle_byte(m, Pane::Cpuid, b'G', 0), Some(InputEvent::ScrollToBottom));
    assert_eq!(input.handle_byte(m, Pane::Cpuid, 0x06, 0), Some(InputEvent::PageDown));
    assert_eq!(input.handle_byte(m, Pane::Cpuid, 0x02, 0), Some(InputEvent::PageUp));
    // '/' only enters search on a searchable pane
    assert_eq!(
        input.handle_byte(m, Pane::Cpuid, b'/', 0),
        Some(InputEvent::EnterSearchMode)
    );
    assert_eq!(
        input.handle_byte(m, Pane::Msr, b'/', 0),
        Some(InputEvent::EnterSearchMode)
    );
    assert_eq!(input.handle_byte(m, Pane::Fpu, b'/', 0), None);
}

#[test]
fn search_mode_byte_mapping() {
    let mut input = Input::new();
    let m = Mode::Search;
    assert_eq!(input.handle_byte(m, Pane::Cpuid, 0x1b, 0), Some(InputEvent::ExitSearchMode));
    assert_eq!(input.handle_byte(m, Pane::Cpuid, 0x7f, 0), Some(InputEvent::SearchBackspace));
    assert_eq!(input.handle_byte(m, Pane::Cpuid, 0x08, 0), Some(InputEvent::SearchBackspace));
    assert_eq!(input.handle_byte(m, Pane::Cpuid, 0x0d, 0), Some(InputEvent::ConfirmSearch));
    assert_eq!(
        input.handle_byte(m, Pane::Cpuid, b'a', 0),
        Some(InputEvent::SearchInput(b'a'))
    );
    assert_eq!(input.handle_byte(m, Pane::Cpuid, 0x01, 0), None);
    assert_eq!(input.handle_byte(m, Pane::Cpuid, 0x00, 0), None);
}

#[test]
fn search_results_byte_mapping() {
    let mut input = Input::new();
    let m = Mode::SearchResults;
    assert_eq!(input.handle_byte(m, Pane::Cpuid, 0x1b, 0), Some(InputEvent::ExitSearchMode));
    assert_eq!(input.handle_byte(m, Pane::Cpuid, 0x0d, 0), Some(InputEvent::ExitSearchMode));
    assert_eq!(input.handle_byte(m, Pane::Cpuid, b'n', 0), Some(InputEvent::NextMatch));
    assert_eq!(input.handle_byte(m, Pane::Cpuid, b'N', 0), Some(InputEvent::PrevMatch));
    assert_eq!(input.handle_byte(m, Pane::Cpuid, b'/', 0), Some(InputEvent::EnterSearchMode));
    assert_eq!(input.handle_byte(m, Pane::Cpuid, b'j', 0), None);
}

#[test]
fn tsc_frequency_prefers_crystal_ratio() {
    // leaf 0x15: denominator 2, numerator 100, crystal 1000 Hz
    let freq = tsc_frequency([2, 100, 1000, 0], [0, 0, 0, 0]);
    assert_eq!(freq, Some(50_000));
}

#[test]
fn tsc_frequency_falls_back_to_base_mhz() {
    let freq = tsc_frequency([0, 0, 0, 0], [3000, 0, 0, 0]);
    assert_eq!(freq, Some(3_000_000_000));
    // only the low 16 bits of EAX are the base frequency
    let masked = tsc_frequency([0, 0, 0, 0], [0x0001_0BB8, 0, 0, 0]);
    assert_eq!(masked, Some(3_000_000_000));
}

#[test]
fn tsc_frequency_unavailable() {
    assert_eq!(tsc_frequency([0, 0, 0, 0], [0, 0, 0, 0]), None);
    // a zero in any ratio field disables the crystal path
    assert_eq!(tsc_frequency([0, 100, 1000, 0], [0, 0, 0, 0]), None);
}

#[test]
fn calibration_arithmetic() {
    // 1000 timer ticks while 10_000 reference ticks of a 1 MHz clock passed
    assert_eq!(calibrated_frequency(1000, 1_000_000, 10_000), Some(100_000));
    // truncating division
    assert_eq!(calibrated_frequency(7, 10, 3), Some(23));
    // a dead reference counter is a failed measurement, not zero frequency
    assert_eq!(calibrated_frequency(1000, 1_000_000, 0), None);
}

#[test]
fn reload_value_formula() {
    assert_eq!(reload_for_target(100_000_000, TARGET_TIMER_HZ), 1_000_000);
    assert_eq!(reload_for_target(150, 100), 1);
    // clamped to the register's width
    assert_eq!(reload_for_target(u64::MAX, 1), u32::MAX);
    assert!(FALLBACK_RELOAD > 0);
}

#[test]
fn hsv_to_rgb_sectors() {
    assert_eq!(hsv_to_rgb(0), (255, 0, 0));
    assert_eq!(hsv_to_rgb(60), (255, 255, 0));
    assert_eq!(hsv_to_rgb(120), (0, 255, 0));
    assert_eq!(hsv_to_rgb(180), (0, 255, 255));
    assert_eq!(hsv_to_rgb(240), (0, 0, 255));
    assert_eq!(hsv_to_rgb(300), (255, 0, 255));
    // fractional ramp within a sector: 30 degrees into red->yellow
    assert_eq!(hsv_to_rgb(30), (255, 127, 0));
    // hue wraps at 360
    assert_eq!(hsv_to_rgb(360), (255, 0, 0));
}

#[test]
fn uptime_wording_thresholds() {
    assert_eq!(uptime_display(0), Uptime::Seconds(0));
    assert_eq!(uptime_display(59), Uptime::Seconds(59));
    assert_eq!(uptime_display(60), Uptime::MinuteSeconds(0));
    assert_eq!(uptime_display(119), Uptime::MinuteSeconds(59));
    assert_eq!(uptime_display(120), Uptime::Minutes(2));
    assert_eq!(uptime_display(7199), Uptime::Minutes(119));
    assert_eq!(uptime_display(7200), Uptime::Hours(2));
}

#[test]
fn timer_state_refresh_takes_tick_count() {
    let mut timer = TimerState::new([2, 100, 1000, 0], [0, 0, 0, 0]);
    assert_eq!(timer.tick_count, 0);
    timer.refresh(12345);
    assert_eq!(timer.tick_count, 12345);
    assert_eq!(timer.uptime_seconds(), 12345 / TARGET_TIMER_HZ);
}
