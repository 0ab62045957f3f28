//! Core of an interrupt-driven diagnostic console: tick counters, an
//! inter-context byte queue, a modal input state machine, scroll and search
//! models for content panes, timer-calibration arithmetic, and a diffing
//! terminal renderer that emits minimal ANSI escape sequences.
//!
//! Hardware access (interrupt controllers, serial ports, CPU register
//! reads) lives outside this crate; the library works on the plain values
//! those collaborators hand in.

use vstd::prelude::*;

mod app;
mod cpu;
mod input;
mod memory;
mod msr;
mod pane;
mod queue;
mod render;
mod scroll;
mod search;
mod style;
mod ticks;
mod timer;

pub use app::App;
pub use app::AppAction;
pub use app::AppState;
pub use app::CpuidPane;
pub use app::Mode;
pub use app::Pane;
pub use app::QemuExitCode;
pub use app::event_direction;
pub use app::feature_items_from;
pub use app::next_matched;
pub use app::prev_matched;
pub use app::scrolled_app;
pub use app::searched;
pub use app::self_searched;
pub use app::spec_cycle_color;
pub use app::spec_scrollable;
pub use cpu::ExtendedStateFeatures;
pub use cpu::FpuState;
pub use cpu::FxSaveAligned;
pub use cpu::FxSaveArea;
pub use cpu::VendorInfo;
pub use cpu::XsaveState;
pub use cpu::YmmRegisters;
pub use cpu::build_vendor_info;
pub use cpu::str_eq;
pub use input::Input;
pub use input::InputEvent;
pub use input::Sequence;
pub use input::SEQUENCE_TIMEOUT_TICKS;
pub use input::chord_completes;
pub use input::lemma_chord_after_timeout;
pub use input::lemma_chord_within_window;
pub use input::sat_sub;
pub use input::spec_chord_step;
pub use input::spec_handle_byte_event;
pub use input::spec_handle_byte_state;
pub use input::spec_nav_direct;
pub use input::spec_results_event;
pub use input::spec_search_event;
pub use memory::UninitPageTableManager;
pub use msr::MsrCategory;
pub use msr::MsrEntry;
pub use msr::MsrPane;
pub use msr::category_items_from;
pub use msr::category_lines;
pub use msr::entry_items_from;
pub use msr::total_lines_from;
pub use pane::MIN_SEARCH_LEN;
pub use pane::Span;
pub use pane::highlight_hay;
pub use pane::highlight_is_plain;
pub use pane::highlight_line;
pub use pane::highlight_needle;
pub use pane::matching_offsets;
pub use pane::next_match;
pub use pane::padded_name;
pub use pane::perform_search;
pub use pane::prev_match;
pub use pane::spaces;
pub use pane::spec_highlight_style;
pub use pane::spec_matching_offsets;
pub use queue::ByteQueue;
pub use queue::QUEUE_CAPACITY;
pub use queue::lemma_queue_overflow;
pub use queue::min_int;
pub use queue::queue_bytes;
pub use queue::spec_enqueue;
pub use queue::spec_enqueue_all;
pub use render::Cell;
pub use render::Frame;
pub use render::Renderer;
pub use render::apply_updates_cells;
pub use render::cell_chars;
pub use render::clear_screen_chars;
pub use render::diff_cells_from;
pub use render::goto_chars;
pub use render::hide_cursor_chars;
pub use render::lemma_identical_draw_is_quiet;
pub use render::paint_diff_chars;
pub use render::paint_full_chars;
pub use render::paint_row_from;
pub use render::paint_rows_from;
pub use render::push_decimal_u32;
pub use render::reset_chars;
pub use render::row_last_style;
pub use render::show_cursor_chars;
pub use scroll::ScrollDirection;
pub use scroll::ScrollHints;
pub use search::SearchState;
pub use search::char_is_upper;
pub use search::contains_seq;
pub use search::find_first;
pub use search::find_matches;
pub use search::find_matches_strs;
pub use search::first_match_at;
pub use search::has_upper;
pub use search::has_uppercase;
pub use search::lemma_next_wraparound;
pub use search::lemma_prev_wraparound;
pub use search::lower_of;
pub use search::match_at;
pub use search::matched_lines;
pub use search::matched_lines_from;
pub use search::next_index;
pub use search::next_index_iter;
pub use search::prev_index;
pub use search::prev_index_iter;
pub use search::smart_contains;
pub use search::spec_smart_contains;
pub use style::Color;
pub use style::Style;
pub use style::bg_codes;
pub use style::dec_chars;
pub use style::digit_char;
pub use style::fg_codes;
pub use style::modifier_codes;
pub use style::params_chars_from;
pub use style::push_decimal;
pub use style::sgr_chars;
pub use style::sgr_for_style;
pub use style::sgr_params;
pub use ticks::TICKS_PER_EVENT;
pub use ticks::TICKS_PER_SECOND;
pub use ticks::TickCounters;
pub use timer::FALLBACK_RELOAD;
pub use timer::TARGET_TIMER_HZ;
pub use timer::TimerState;
pub use timer::Uptime;
pub use timer::calibrated_frequency;
pub use timer::hsv_to_rgb;
pub use timer::reload_for_target;
pub use timer::spec_calibrated_frequency;
pub use timer::spec_hsv_to_rgb;
pub use timer::spec_reload_for_target;
pub use timer::spec_tsc_frequency;
pub use timer::tsc_frequency;
pub use timer::uptime_display;

verus! {

} // verus!
