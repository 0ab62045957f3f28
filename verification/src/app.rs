//! Application-level state: the active pane, the input mode, and the
//! cyclic accent color driven by print events.

use vstd::prelude::*;
use crate::cpu::{FpuState, VendorInfo, XsaveState};
use crate::input::InputEvent;
use crate::msr::{category_items_from, MsrPane};
use crate::pane::{next_match, perform_search, prev_match, spec_matching_offsets, MIN_SEARCH_LEN};
use crate::scroll::{ScrollDirection, ScrollHints};
use crate::search::SearchState;
use crate::style::Color;
use crate::timer::TimerState;

verus! {

/// How raw input bytes are currently interpreted.
#[derive(Clone, Copy, PartialEq, Eq, Structural, Debug)]
pub enum Mode {
    Navigation,
    Search,
    SearchResults,
}

/// The closed set of content views; exactly one is active at a time.
#[derive(Clone, Copy, PartialEq, Eq, Structural, Debug)]
pub enum Pane {
    Cpuid,
    Fpu,
    Xsave,
    Timer,
    Msr,
}

impl Pane {
    /// Only these panes carry a search index.
    pub open spec fn spec_searchable(self) -> bool {
        self == Pane::Cpuid || self == Pane::Msr
    }

    pub fn searchable(self) -> (r: bool)
        ensures
            r == self.spec_searchable(),
    {
        match self {
            Pane::Cpuid => true,
            Pane::Msr => true,
            _ => false,
        }
    }

    /// The title shown on the pane's border.
    pub fn title(self) -> (r: &'static str)
        ensures
            self == Pane::Cpuid ==> r@ == "CPUID"@,
            self == Pane::Fpu ==> r@ == "FPU"@,
            self == Pane::Xsave ==> r@ == "XSAVE"@,
            self == Pane::Timer ==> r@ == "Timer"@,
            self == Pane::Msr ==> r@ == "MSR"@,
    {
        match self {
            Pane::Cpuid => "CPUID",
            Pane::Fpu => "FPU",
            Pane::Xsave => "XSAVE",
            Pane::Timer => "Timer",
            Pane::Msr => "MSR",
        }
    }
}

/// The accent colors the UI cycles through, one step per print event.
pub open spec fn spec_cycle_color(idx: int) -> Color {
    if idx == 0 {
        Color::Magenta
    } else if idx == 1 {
        Color::Red
    } else if idx == 2 {
        Color::Yellow
    } else if idx == 3 {
        Color::Blue
    } else if idx == 4 {
        Color::White
    } else if idx == 5 {
        Color::Cyan
    } else if idx == 6 {
        Color::Green
    } else {
        Color::DarkGray
    }
}

/// Global display state: a color index that cycles through eight colors.
pub struct AppState {
    color_idx: usize,
}

impl AppState {
    pub closed spec fn spec_color_idx(&self) -> usize {
        self.color_idx
    }

    pub fn new() -> (r: Self)
        ensures
            r.spec_color_idx() == 0,
    {
        AppState { color_idx: 0 }
    }

    /// Advance the accent color by one step, wrapping after eight.
    pub fn tick(&mut self)
        requires
            old(self).spec_color_idx() < 8,
        ensures
            final(self).spec_color_idx() == (old(self).spec_color_idx() + 1) % 8,
    {
        self.color_idx = (self.color_idx + 1) % 8;
    }

    /// The current accent color.
    pub fn color(&self) -> (r: Color)
        ensures
            r == spec_cycle_color(self.spec_color_idx() as int),
    {
        if self.color_idx == 0 {
            Color::Magenta
        } else if self.color_idx == 1 {
            Color::Red
        } else if self.color_idx == 2 {
            Color::Yellow
        } else if self.color_idx == 3 {
            Color::Blue
        } else if self.color_idx == 4 {
            Color::White
        } else if self.color_idx == 5 {
            Color::Cyan
        } else if self.color_idx == 6 {
            Color::Green
        } else {
            Color::DarkGray
        }
    }
}


/// The searchable items of a feature list whose first entry renders at
/// line `line`, from entry `j` on.
pub open spec fn feature_items_from(
    fs: Seq<(&'static str, bool)>,
    line: int,
    j: int,
) -> Seq<(&'static str, u16)>
    decreases fs.len() - j,
{
    if j < 0 || j >= fs.len() {
        Seq::empty()
    } else {
        seq![(fs[j].0, (line + j) as u16)] + feature_items_from(fs, line, j + 1)
    }
}

/// The CPU-feature pane: the vendor classification and feature lists the
/// CPUID collaborator handed in, with scroll and search state.
pub struct CpuidPane {
    pub vendor_info: VendorInfo,
    pub features: Vec<(&'static str, bool)>,
    pub extended_features: Vec<(&'static str, bool)>,
    pub scroll: ScrollHints,
    pub search: SearchState,
}

impl CpuidPane {
    /// The pane renders the vendor line, a header, the base features, then
    /// a separator, a header and the extended features.
    pub open spec fn spec_search_items(&self) -> Seq<(&'static str, u16)> {
        feature_items_from(self.features@, 2, 0) + feature_items_from(
            self.extended_features@,
            4 + self.features@.len() as int,
            0,
        )
    }

    /// All rendered line offsets stay addressable by `u16`.
    pub open spec fn wf(&self) -> bool {
        4 + self.features@.len() + self.extended_features@.len() <= u16::MAX && self.scroll.wf()
            && self.search.wf()
    }

    pub fn new(
        vendor_info: VendorInfo,
        features: Vec<(&'static str, bool)>,
        extended_features: Vec<(&'static str, bool)>,
    ) -> (r: Self)
        requires
            4 + features@.len() + extended_features@.len() <= u16::MAX,
        ensures
            r.features@ == features@,
            r.extended_features@ == extended_features@,
            r.vendor_info == vendor_info,
            r.scroll.y_offset == 0 && r.scroll.max_offset == 0,
            r.search.matches@.len() == 0 && r.search.current_match == 0,
            r.wf(),
    {
        CpuidPane {
            vendor_info,
            features,
            extended_features,
            scroll: ScrollHints::new(),
            search: SearchState::new(),
        }
    }

    /// The pane's searchable index: feature names with the line offsets
    /// they render at; headers and separators occupy slots but are not
    /// searchable.
    pub fn search_items(&self) -> (r: Vec<(&'static str, u16)>)
        requires
            self.wf(),
        ensures
            r@ == self.spec_search_items(),
    {
        let mut items: Vec<(&'static str, u16)> = Vec::new();
        let n1 = self.features.len();
        let mut j: usize = 0;
        while j < n1
            invariant
                j <= n1,
                n1 == self.features@.len(),
                self.wf(),
                items@.len() == j,
                feature_items_from(self.features@, 2, 0) == items@ + feature_items_from(
                    self.features@,
                    2,
                    j as int,
                ),
            decreases n1 - j,
        {
            let line: u16 = 2 + (j as u16);
            items.push((self.features[j].0, line));
            j = j + 1;
            proof {
                assert(feature_items_from(self.features@, 2, 0) =~= items@ + feature_items_from(
                    self.features@,
                    2,
                    j as int,
                ));
            }
        }
        let ghost first_part = items@;
        let base: u16 = 4 + (n1 as u16);
        let n2 = self.extended_features.len();
        let mut k: usize = 0;
        while k < n2
            invariant
                k <= n2,
                n2 == self.extended_features@.len(),
                n1 == self.features@.len(),
                self.wf(),
                base == 4 + n1,
                items@.len() == first_part.len() + k,
                items@.take(first_part.len() as int) == first_part,
                first_part == feature_items_from(self.features@, 2, 0),
                feature_items_from(self.extended_features@, base as int, 0) == items@.skip(
                    first_part.len() as int,
                ) + feature_items_from(self.extended_features@, base as int, k as int),
            decreases n2 - k,
        {
            let line: u16 = base + (k as u16);
            items.push((self.extended_features[k].0, line));
            k = k + 1;
            proof {
                assert(items@.take(first_part.len() as int) =~= first_part);
                assert(feature_items_from(self.extended_features@, base as int, 0) =~= items@.skip(
                    first_part.len() as int,
                ) + feature_items_from(self.extended_features@, base as int, k as int));
            }
        }
        proof {
            assert(items@ =~= first_part + items@.skip(first_part.len() as int));
            assert(items@ =~= self.spec_search_items());
        }
        items
    }
}

/// The code handed to the hypervisor's exit device when the console quits.
#[derive(Clone, Copy, PartialEq, Eq, Structural, Debug)]
pub enum QemuExitCode {
    Success,
    Failed,
}

impl QemuExitCode {
    /// The numeric value the exit device expects.
    pub fn code(self) -> (r: u32)
        ensures
            self == QemuExitCode::Success ==> r == 0x10,
            self == QemuExitCode::Failed ==> r == 0x11,
    {
        match self {
            QemuExitCode::Success => 0x10,
            QemuExitCode::Failed => 0x11,
        }
    }
}

} // verus!

verus! {

/// What the main loop does with an applied event.
#[derive(Clone, Copy, PartialEq, Eq, Structural, Debug)]
pub enum AppAction {
    Nothing,
    Redraw,
    Quit,
}

/// Relies on `String::push`: appends the character.
#[verifier::external_body]
fn push_char(s: &mut String, c: char)
    ensures
        final(s)@ == old(s)@.push(c),
{
    s.push(c);
}

/// Relies on `String::pop`: removes and returns the last character, or
/// `None` when the string is empty.
#[verifier::external_body]
fn pop_char(s: &mut String) -> (r: Option<char>)
    ensures
        old(s)@.len() == 0 ==> r is None && final(s)@ == old(s)@,
        old(s)@.len() > 0 ==> r == Some(old(s)@.last()) && final(s)@ == old(s)@.drop_last(),
{
    s.pop()
}

/// The scroll direction a UI event asks for, if any.
pub open spec fn event_direction(event: InputEvent) -> Option<ScrollDirection> {
    match event {
        InputEvent::ScrollUp => Some(ScrollDirection::Up),
        InputEvent::ScrollDown => Some(ScrollDirection::Down),
        InputEvent::ScrollToTop => Some(ScrollDirection::Top),
        InputEvent::ScrollToBottom => Some(ScrollDirection::Bottom),
        InputEvent::PageUp => Some(ScrollDirection::PageUp),
        InputEvent::PageDown => Some(ScrollDirection::PageDown),
        _ => None,
    }
}

/// Only these panes own scroll state.
pub open spec fn spec_scrollable(p: Pane) -> bool {
    p == Pane::Cpuid || p == Pane::Fpu || p == Pane::Msr
}

/// What `perform_search` leaves behind: inert below the minimum length or
/// on an unchanged query; otherwise rebuilt matches, a reset cursor, the
/// recorded query, and a jump to the first match when one exists.
pub open spec fn searched(
    s0: SearchState,
    h0: ScrollHints,
    items: Seq<(&'static str, u16)>,
    q: Seq<char>,
    s1: SearchState,
    h1: ScrollHints,
) -> bool {
    &&& (q.len() < MIN_SEARCH_LEN ==> s1 == s0 && h1 == h0)
    &&& (q.len() >= MIN_SEARCH_LEN && q == s0.last_query@ ==> s1 == s0 && h1 == h0)
    &&& (q.len() >= MIN_SEARCH_LEN && q != s0.last_query@ ==> {
        &&& s1.matches@ == spec_matching_offsets(items, q, 0)
        &&& s1.current_match == 0
        &&& s1.last_query@ == q
        &&& h1.max_offset == h0.max_offset
        &&& h1.page_height == h0.page_height
        &&& (s1.matches@.len() == 0 ==> h1.y_offset == h0.y_offset)
        &&& (s1.matches@.len() > 0 ==> h1.y_offset == if s1.matches@[0] <= h0.max_offset {
            s1.matches@[0]
        } else {
            h0.max_offset
        })
    })
    &&& s1.wf()
}

/// What `next_match` leaves behind: with matches, the cursor advances with
/// wraparound and the pane scrolls to it; without, nothing moves.
pub open spec fn next_matched(s0: SearchState, h0: ScrollHints, s1: SearchState, h1: ScrollHints) -> bool {
    &&& (s0.matches@.len() == 0 ==> s1 == s0 && h1 == h0)
    &&& (s0.matches@.len() > 0 ==> {
        &&& s1.current_match == (s0.current_match + 1) % (s0.matches@.len() as int)
        &&& s1.matches == s0.matches
        &&& s1.last_query == s0.last_query
        &&& h1.max_offset == h0.max_offset
        &&& h1.page_height == h0.page_height
        &&& h1.y_offset == if s0.matches@[s1.current_match as int] <= h0.max_offset {
            s0.matches@[s1.current_match as int]
        } else {
            h0.max_offset
        }
    })
    &&& s1.wf()
}

/// What `prev_match` leaves behind, symmetrically.
pub open spec fn prev_matched(s0: SearchState, h0: ScrollHints, s1: SearchState, h1: ScrollHints) -> bool {
    &&& (s0.matches@.len() == 0 ==> s1 == s0 && h1 == h0)
    &&& (s0.matches@.len() > 0 ==> {
        &&& s1.current_match == if s0.current_match == 0 {
            s0.matches@.len() - 1
        } else {
            s0.current_match - 1
        }
        &&& s1.matches == s0.matches
        &&& s1.last_query == s0.last_query
        &&& h1.max_offset == h0.max_offset
        &&& h1.page_height == h0.page_height
        &&& h1.y_offset == if s0.matches@[s1.current_match as int] <= h0.max_offset {
            s0.matches@[s1.current_match as int]
        } else {
            h0.max_offset
        }
    })
    &&& s1.wf()
}

/// `b` is `a` scrolled in direction `dir` on the active pane; panes
/// without scroll state leave `a` unchanged.
pub open spec fn scrolled_app(a: App, b: App, dir: ScrollDirection) -> bool {
    match a.pane {
        Pane::Cpuid => b == (App {
            cpuid: CpuidPane {
                scroll: ScrollHints {
                    y_offset: a.cpuid.scroll.spec_scroll(dir),
                    ..a.cpuid.scroll
                },
                ..a.cpuid
            },
            ..a
        }),
        Pane::Fpu => b == (App {
            fpu: FpuState {
                scroll: ScrollHints { y_offset: a.fpu.scroll.spec_scroll(dir), ..a.fpu.scroll },
                ..a.fpu
            },
            ..a
        }),
        Pane::Msr => b == (App {
            msr: MsrPane {
                scroll: ScrollHints { y_offset: a.msr.scroll.spec_scroll(dir), ..a.msr.scroll },
                ..a.msr
            },
            ..a
        }),
        Pane::Xsave => b == a,
        Pane::Timer => b == a,
    }
}

/// The whole UI state the application loop owns: mode, active pane, the
/// query being typed, and every pane's state.
pub struct App {
    pub mode: Mode,
    pub pane: Pane,
    pub state: AppState,
    pub query: String,
    pub cpuid: CpuidPane,
    pub fpu: FpuState,
    pub xsave: XsaveState,
    pub timer: TimerState,
    pub msr: MsrPane,
}

impl App {
    pub open spec fn wf(&self) -> bool {
        &&& self.state.spec_color_idx() < 8
        &&& self.cpuid.wf()
        &&& self.fpu.scroll.wf()
        &&& self.msr.wf()
    }

    pub fn new(
        cpuid: CpuidPane,
        fpu: FpuState,
        xsave: XsaveState,
        timer: TimerState,
        msr: MsrPane,
    ) -> (r: Self)
        requires
            cpuid.wf(),
            fpu.scroll.wf(),
            msr.wf(),
        ensures
            r.mode == Mode::Navigation,
            r.pane == Pane::Cpuid,
            r.query@.len() == 0,
            r.state.spec_color_idx() == 0,
            r.cpuid == cpuid && r.fpu == fpu && r.xsave == xsave && r.timer == timer && r.msr
                == msr,
            r.wf(),
    {
        App {
            mode: Mode::Navigation,
            pane: Pane::Cpuid,
            state: AppState::new(),
            query: String::new(),
            cpuid,
            fpu,
            xsave,
            timer,
            msr,
        }
    }

    pub fn mode(&self) -> (r: Mode)
        ensures
            r == self.mode,
    {
        self.mode
    }

    pub fn pane(&self) -> (r: Pane)
        ensures
            r == self.pane,
    {
        self.pane
    }

    pub fn set_pane(&mut self, pane: Pane)
        ensures
            *final(self) == (App { pane, ..*old(self) }),
    {
        self.pane = pane;
    }

    /// Advance the accent color one step.
    pub fn tick(&mut self)
        requires
            old(self).wf(),
        ensures
            final(self).state.spec_color_idx() == (old(self).state.spec_color_idx() + 1) % 8,
            *final(self) == (App { state: final(self).state, ..*old(self) }),
            final(self).wf(),
    {
        self.state.tick();
    }

    /// The current accent color.
    pub fn color(&self) -> (r: Color)
        ensures
            r == spec_cycle_color(self.state.spec_color_idx() as int),
    {
        self.state.color()
    }

    /// Apply one UI event: mode transitions, pane selection, scrolling and
    /// search navigation, returning what the loop should do next. At most
    /// one event is processed per drained byte, and quitting mutates no
    /// further UI state.
    pub fn apply_event(&mut self, event: InputEvent) -> (r: AppAction)
        requires
            old(self).wf(),
        ensures
            final(self).wf(),
            event == InputEvent::Quit ==> *final(self) == *old(self) && r == AppAction::Quit,
            (forall|p: Pane| event != InputEvent::SelectPane(p)) && event != InputEvent::Quit
                && event_direction(event) is None && event != InputEvent::EnterSearchMode && event
                != InputEvent::ConfirmSearch && event != InputEvent::ExitSearchMode && (forall|
                b: u8,
            | event != InputEvent::SearchInput(b)) && event != InputEvent::SearchBackspace && event
                != InputEvent::NextMatch && event != InputEvent::PrevMatch ==> *final(self) == *old(self) && r == AppAction::Nothing,
            forall|p: Pane|
                event == InputEvent::SelectPane(p) ==> *final(self) == (App {
                    pane: p,
                    ..*old(self)
                }) && r == AppAction::Redraw,
            event_direction(event) is Some ==> scrolled_app(
                *old(self),
                *final(self),
                event_direction(event).unwrap(),
            ) && r == (if spec_scrollable(old(self).pane) {
                AppAction::Redraw
            } else {
                AppAction::Nothing
            }),
            event == InputEvent::EnterSearchMode && old(self).pane.spec_searchable() ==> {
                &&& final(self).mode == Mode::Search
                &&& final(self).query@.len() == 0
                &&& (old(self).pane == Pane::Cpuid ==> final(self).cpuid.search.matches@.len() == 0
                    && final(self).cpuid.search.current_match == 0 && final(self).cpuid.search.last_query@.len() == 0 && *final(self) == (App {
                    mode: Mode::Search,
                    query: final(self).query,
                    cpuid: CpuidPane { search: final(self).cpuid.search, ..old(self).cpuid },
                    ..*old(self)
                }))
                &&& (old(self).pane == Pane::Msr ==> final(self).msr.search.matches@.len() == 0
                    && final(self).msr.search.current_match == 0 && final(self).msr.search.last_query@.len() == 0 && *final(self) == (App {
                    mode: Mode::Search,
                    query: final(self).query,
                    msr: MsrPane { search: final(self).msr.search, ..old(self).msr },
                    ..*old(self)
                }))
                &&& r == AppAction::Redraw
            },
            event == InputEvent::EnterSearchMode && !old(self).pane.spec_searchable() ==> *final(self) == *old(self) && r == AppAction::Nothing,
            event == InputEvent::ConfirmSearch ==> *final(self) == (App {
                mode: Mode::SearchResults,
                ..*old(self)
            }) && r == AppAction::Redraw,
            event == InputEvent::ExitSearchMode ==> *final(self) == (App {
                mode: Mode::Navigation,
                ..*old(self)
            }) && r == AppAction::Redraw,
            forall|b: u8|
                event == InputEvent::SearchInput(b) ==> final(self).query@ == old(self).query@.push(b as char) && self_searched(*old(self), *final(self))
                    && r == AppAction::Redraw,
            event == InputEvent::SearchBackspace ==> final(self).query@ == (if old(self).query@.len() > 0 {
                old(self).query@.drop_last()
            } else {
                old(self).query@
            }) && self_searched(*old(self), *final(self)) && r == AppAction::Redraw,
            event == InputEvent::NextMatch ==> {
                &&& (old(self).pane == Pane::Cpuid ==> next_matched(
                    old(self).cpuid.search,
                    old(self).cpuid.scroll,
                    final(self).cpuid.search,
                    final(self).cpuid.scroll,
                ) && *final(self) == (App {
                    cpuid: CpuidPane {
                        search: final(self).cpuid.search,
                        scroll: final(self).cpuid.scroll,
                        ..old(self).cpuid
                    },
                    ..*old(self)
                }) && r == AppAction::Redraw)
                &&& (old(self).pane == Pane::Msr ==> next_matched(
                    old(self).msr.search,
                    old(self).msr.scroll,
                    final(self).msr.search,
                    final(self).msr.scroll,
                ) && *final(self) == (App {
                    msr: MsrPane {
                        search: final(self).msr.search,
                        scroll: final(self).msr.scroll,
                        ..old(self).msr
                    },
                    ..*old(self)
                }) && r == AppAction::Redraw)
                &&& (!old(self).pane.spec_searchable() ==> *final(self) == *old(self) && r
                    == AppAction::Nothing)
            },
            event == InputEvent::PrevMatch ==> {
                &&& (old(self).pane == Pane::Cpuid ==> prev_matched(
                    old(self).cpuid.search,
                    old(self).cpuid.scroll,
                    final(self).cpuid.search,
                    final(self).cpuid.scroll,
                ) && *final(self) == (App {
                    cpuid: CpuidPane {
                        search: final(self).cpuid.search,
                        scroll: final(self).cpuid.scroll,
                        ..old(self).cpuid
                    },
                    ..*old(self)
                }) && r == AppAction::Redraw)
                &&& (old(self).pane == Pane::Msr ==> prev_matched(
                    old(self).msr.search,
                    old(self).msr.scroll,
                    final(self).msr.search,
                    final(self).msr.scroll,
                ) && *final(self) == (App {
                    msr: MsrPane {
                        search: final(self).msr.search,
                        scroll: final(self).msr.scroll,
                        ..old(self).msr
                    },
                    ..*old(self)
                }) && r == AppAction::Redraw)
                &&& (!old(self).pane.spec_searchable() ==> *final(self) == *old(self) && r
                    == AppAction::Nothing)
            },
    {
        match event {
            InputEvent::Quit => AppAction::Quit,
            InputEvent::SelectPane(p) => {
                self.pane = p;
                AppAction::Redraw
            },
            InputEvent::ScrollUp => self.scroll_active(ScrollDirection::Up),
            InputEvent::ScrollDown => self.scroll_active(ScrollDirection::Down),
            InputEvent::ScrollToTop => self.scroll_active(ScrollDirection::Top),
            InputEvent::ScrollToBottom => self.scroll_active(ScrollDirection::Bottom),
            InputEvent::PageUp => self.scroll_active(ScrollDirection::PageUp),
            InputEvent::PageDown => self.scroll_active(ScrollDirection::PageDown),
            InputEvent::EnterSearchMode => {
                match self.pane {
                    Pane::Cpuid => {
                        self.mode = Mode::Search;
                        self.query = String::new();
                        self.cpuid.search.clear();
                        AppAction::Redraw
                    },
                    Pane::Msr => {
                        self.mode = Mode::Search;
                        self.query = String::new();
                        self.msr.search.clear();
                        AppAction::Redraw
                    },
                    _ => AppAction::Nothing,
                }
            },
            InputEvent::ConfirmSearch => {
                self.mode = Mode::SearchResults;
                AppAction::Redraw
            },
            InputEvent::ExitSearchMode => {
                self.mode = Mode::Navigation;
                AppAction::Redraw
            },
            InputEvent::SearchInput(b) => {
                push_char(&mut self.query, b as char);
                self.search_active();
                AppAction::Redraw
            },
            InputEvent::SearchBackspace => {
                pop_char(&mut self.query);
                self.search_active();
                AppAction::Redraw
            },
            InputEvent::NextMatch => {
                match self.pane {
                    Pane::Cpuid => {
                        next_match(&mut self.cpuid.search, &mut self.cpuid.scroll);
                        AppAction::Redraw
                    },
                    Pane::Msr => {
                        next_match(&mut self.msr.search, &mut self.msr.scroll);
                        AppAction::Redraw
                    },
                    _ => AppAction::Nothing,
                }
            },
            InputEvent::PrevMatch => {
                match self.pane {
                    Pane::Cpuid => {
                        prev_match(&mut self.cpuid.search, &mut self.cpuid.scroll);
                        AppAction::Redraw
                    },
                    Pane::Msr => {
                        prev_match(&mut self.msr.search, &mut self.msr.scroll);
                        AppAction::Redraw
                    },
                    _ => AppAction::Nothing,
                }
            },
        }
    }

    /// Scroll the active pane, if it scrolls at all.
    fn scroll_active(&mut self, dir: ScrollDirection) -> (r: AppAction)
        requires
            old(self).wf(),
        ensures
            final(self).wf(),
            scrolled_app(*old(self), *final(self), dir),
            r == (if spec_scrollable(old(self).pane) {
                AppAction::Redraw
            } else {
                AppAction::Nothing
            }),
    {
        match self.pane {
            Pane::Cpuid => {
                self.cpuid.scroll.scroll(dir);
                AppAction::Redraw
            },
            Pane::Fpu => {
                self.fpu.scroll.scroll(dir);
                AppAction::Redraw
            },
            Pane::Msr => {
                self.msr.scroll.scroll(dir);
                AppAction::Redraw
            },
            Pane::Xsave => AppAction::Nothing,
            Pane::Timer => AppAction::Nothing,
        }
    }

    /// Re-run the search on the active searchable pane with the current
    /// query.
    fn search_active(&mut self)
        requires
            old(self).wf(),
        ensures
            final(self).wf(),
            final(self).query == old(self).query,
            self_searched(*old(self), *final(self)),
    {
        match self.pane {
            Pane::Cpuid => {
                let items = self.cpuid.search_items();
                perform_search(
                    &mut self.cpuid.search,
                    &mut self.cpuid.scroll,
                    &items,
                    self.query.as_str(),
                );
            },
            Pane::Msr => {
                let items = self.msr.search_items();
                perform_search(
                    &mut self.msr.search,
                    &mut self.msr.scroll,
                    &items,
                    self.query.as_str(),
                );
            },
            _ => {},
        }
    }
}

/// `b` is `a` with the active searchable pane re-searched under `b`'s
/// query (which the caller constrains separately) and nothing else
/// changed.
pub open spec fn self_searched(a: App, b: App) -> bool {
    match a.pane {
        Pane::Cpuid => searched(
            a.cpuid.search,
            a.cpuid.scroll,
            a.cpuid.spec_search_items(),
            b.query@,
            b.cpuid.search,
            b.cpuid.scroll,
        ) && b == (App {
            query: b.query,
            cpuid: CpuidPane { search: b.cpuid.search, scroll: b.cpuid.scroll, ..a.cpuid },
            ..a
        }),
        Pane::Msr => searched(
            a.msr.search,
            a.msr.scroll,
            category_items_from(a.msr.spec_categories(), 0, 0),
            b.query@,
            b.msr.search,
            b.msr.scroll,
        ) && b == (App {
            query: b.query,
            msr: MsrPane { search: b.msr.search, scroll: b.msr.scroll, ..a.msr },
            ..a
        }),
        _ => b == (App { query: b.query, ..a }),
    }
}

} // verus!
