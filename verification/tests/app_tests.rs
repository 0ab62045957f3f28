use cpu_console::{
    build_vendor_info, App, AppAction, CpuidPane, FpuState, InputEvent, Mode, MsrCategory,
    MsrEntry, MsrPane, Pane, TimerState, XsaveState,
};

fn sample_app() -> App {
    let vendor = build_vendor_info("GenuineIntel");
    let features = vec![
        ("avx", true),
        ("avx2", true),
        ("sse", true),
        ("sse2", true),
        ("avx512", false),
    ];
    let cpuid = CpuidPane::new(vendor, features, Vec::new());
    let fpu = FpuState::new(true);
    let xsave = XsaveState::new([1, 0, 0, 0], [7, 0, 0, 0], [2, 0, 0, 0], true);
    let timer = TimerState::new([2, 100, 1000, 0], [0, 0, 0, 0]);
    let msr = MsrPane::new(sample_categories());
    App::new(cpuid, fpu, xsave, timer, msr)
}

fn sample_categories() -> Vec<MsrCategory> {
    vec![
        MsrCategory {
            name: "Long Mode / SYSCALL",
            entries: vec![
                MsrEntry { name: "IA32_EFER", address: 0xC000_0080, value: Some(0xD01) },
                MsrEntry { name: "IA32_STAR", address: 0xC000_0081, value: Some(0) },
            ],
        },
        MsrCategory {
            name: "Time Stamp Counter",
            entries: vec![
                MsrEntry { name: "IA32_TSC", address: 0x10, value: Some(42) },
            ],
        },
    ]
}

#[test]
fn vendor_classification() {
    let intel = build_vendor_info("GenuineIntel");
    assert!(intel.intel && !intel.amd);
    let amd = build_vendor_info("AuthenticAMD");
    assert!(!amd.intel && amd.amd);
    let other = build_vendor_info("SomethingElse");
    assert!(!other.intel && !other.amd);
}

#[test]
fn msr_search_items_account_for_headers_and_separators() {
    let pane = MsrPane::new(sample_categories());
    let items = pane.search_items();
    // category 0: header at 0, entries at 1 and 2, separator at 3;
    // category 1: header at 4, entry at 5
    assert_eq!(items, vec![("IA32_EFER", 1), ("IA32_STAR", 2), ("IA32_TSC", 5)]);
}

#[test]
fn cpuid_search_items_start_below_the_headers() {
    let vendor = build_vendor_info("GenuineIntel");
    let features = vec![("fpu", true), ("sse", true)];
    let extended = vec![("avx2", true)];
    let pane = CpuidPane::new(vendor, features, extended);
    let items = pane.search_items();
    // vendor line and header occupy lines 0 and 1; extended features
    // follow after a separator and their own header
    assert_eq!(items, vec![("fpu", 2), ("sse", 3), ("avx2", 6)]);
}

#[test]
fn select_pane_and_quit() {
    let mut app = sample_app();
    assert_eq!(app.pane(), Pane::Cpuid);
    assert_eq!(app.apply_event(InputEvent::SelectPane(Pane::Timer)), AppAction::Redraw);
    assert_eq!(app.pane(), Pane::Timer);
    assert_eq!(app.apply_event(InputEvent::Quit), AppAction::Quit);
    assert_eq!(app.pane(), Pane::Timer);
}

#[test]
fn scroll_events_move_the_active_pane() {
    let mut app = sample_app();
    app.cpuid.scroll.update_from_render(30, 10);
    assert_eq!(app.apply_event(InputEvent::ScrollDown), AppAction::Redraw);
    assert_eq!(app.cpuid.scroll.y_offset, 1);
    assert_eq!(app.apply_event(InputEvent::ScrollUp), AppAction::Redraw);
    assert_eq!(app.cpuid.scroll.y_offset, 0);
    assert_eq!(app.apply_event(InputEvent::ScrollToBottom), AppAction::Redraw);
    assert_eq!(app.cpuid.scroll.y_offset, 20);
    assert_eq!(app.apply_event(InputEvent::ScrollToTop), AppAction::Redraw);
    assert_eq!(app.cpuid.scroll.y_offset, 0);
    // a pane without scroll state ignores the event
    app.set_pane(Pane::Timer);
    assert_eq!(app.apply_event(InputEvent::ScrollDown), AppAction::Nothing);
}

#[test]
fn search_flow_on_the_cpuid_pane() {
    let mut app = sample_app();
    app.cpuid.scroll.update_from_render(40, 10);
    assert_eq!(app.apply_event(InputEvent::EnterSearchMode), AppAction::Redraw);
    assert_eq!(app.mode(), Mode::Search);

    // one character is below the minimum query length: inert
    app.apply_event(InputEvent::SearchInput(b'a'));
    assert!(app.cpuid.search.matches.is_empty());

    // "av" activates the search; features sit at lines 2..=6
    app.apply_event(InputEvent::SearchInput(b'v'));
    assert_eq!(app.cpuid.search.matches, vec![2, 3, 6]);
    assert_eq!(app.cpuid.search.current_match, 0);
    // and the pane jumped to the first match
    assert_eq!(app.cpuid.scroll.y_offset, 2);

    // confirming moves to the results mode; n/N navigate with wraparound
    assert_eq!(app.apply_event(InputEvent::ConfirmSearch), AppAction::Redraw);
    assert_eq!(app.mode(), Mode::SearchResults);
    app.apply_event(InputEvent::NextMatch);
    assert_eq!(app.cpuid.search.current_match, 1);
    assert_eq!(app.cpuid.scroll.y_offset, 3);
    app.apply_event(InputEvent::NextMatch);
    app.apply_event(InputEvent::NextMatch);
    assert_eq!(app.cpuid.search.current_match, 0);
    app.apply_event(InputEvent::PrevMatch);
    assert_eq!(app.cpuid.search.current_match, 2);
    assert_eq!(app.cpuid.scroll.y_offset, 6);

    assert_eq!(app.apply_event(InputEvent::ExitSearchMode), AppAction::Redraw);
    assert_eq!(app.mode(), Mode::Navigation);
}

#[test]
fn backspace_reruns_the_search() {
    let mut app = sample_app();
    app.cpuid.scroll.update_from_render(40, 10);
    app.apply_event(InputEvent::EnterSearchMode);
    app.apply_event(InputEvent::SearchInput(b's'));
    app.apply_event(InputEvent::SearchInput(b's'));
    app.apply_event(InputEvent::SearchInput(b'e'));
    assert_eq!(app.cpuid.search.matches, vec![4, 5]);
    app.apply_event(InputEvent::SearchBackspace);
    assert_eq!(app.cpuid.search.matches, vec![4, 5]);
    assert_eq!(app.cpuid.search.last_query, "ss");
}

#[test]
fn entering_search_resets_previous_state() {
    let mut app = sample_app();
    app.apply_event(InputEvent::EnterSearchMode);
    app.apply_event(InputEvent::SearchInput(b'a'));
    app.apply_event(InputEvent::SearchInput(b'v'));
    assert!(!app.cpuid.search.matches.is_empty());
    app.apply_event(InputEvent::ExitSearchMode);
    // re-entering search clears the old matches and query
    app.apply_event(InputEvent::EnterSearchMode);
    assert!(app.cpuid.search.matches.is_empty());
    assert!(app.cpuid.search.last_query.is_empty());
}

#[test]
fn search_events_on_unsearchable_pane_do_nothing() {
    let mut app = sample_app();
    app.set_pane(Pane::Fpu);
    assert_eq!(app.apply_event(InputEvent::EnterSearchMode), AppAction::Nothing);
    assert_eq!(app.mode(), Mode::Navigation);
    assert_eq!(app.apply_event(InputEvent::NextMatch), AppAction::Nothing);
}

#[test]
fn tick_cycles_the_accent_color() {
    let mut app = sample_app();
    let first = app.color();
    for _ in 0..8 {
        app.tick();
    }
    assert_eq!(app.color(), first);
}
