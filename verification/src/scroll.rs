//! Viewport offset arithmetic shared by every content pane.
//!
//! A `ScrollHints` keeps a vertical offset clamped to the range
//! `[0, max_offset]`; every mutation re-establishes that bound, so callers
//! never have to.

use vstd::prelude::*;

verus! {

/// Scroll position and limits of one pane's viewport.
pub struct ScrollHints {
    pub max_offset: u16,
    pub y_offset: u16,
    pub page_height: u16,
}

/// One scrolling command.
pub enum ScrollDirection {
    Up,
    Down,
    Top,
    Bottom,
    PageUp,
    PageDown,
}

impl ScrollHints {
    /// The invariant every mutation enforces: the offset never exceeds the
    /// maximum. This is the bound that holds after every single operation,
    /// for all sequences of operations.
    pub open spec fn wf(&self) -> bool {
        self.y_offset <= self.max_offset
    }

    pub fn new() -> (r: Self)
        ensures
            r.max_offset == 0,
            r.y_offset == 0,
            r.page_height == 0,
            r.wf(),
    {
        ScrollHints { max_offset: 0, y_offset: 0, page_height: 0 }
    }

    /// Update scroll limits after rendering content: `max_offset` becomes
    /// the number of lines that do not fit in the viewport, `page_height`
    /// the viewport height minus the two border rows, and the offset is
    /// clamped to the new maximum.
    pub fn update_from_render(&mut self, n_lines: usize, area_height: u16)
        requires
            n_lines <= u16::MAX,
        ensures
            final(self).max_offset == if n_lines >= area_height {
                n_lines - area_height
            } else {
                0
            },
            final(self).page_height == if area_height >= 2 {
                area_height - 2
            } else {
                0
            },
            final(self).y_offset == if old(self).y_offset <= final(self).max_offset {
                old(self).y_offset
            } else {
                final(self).max_offset
            },
            final(self).wf(),
    {
        let lines: u16 = n_lines as u16;
        self.max_offset = if lines >= area_height { lines - area_height } else { 0 };
        self.page_height = if area_height >= 2 { area_height - 2 } else { 0 };
        if self.y_offset > self.max_offset {
            self.y_offset = self.max_offset;
        }
    }

    /// The offset that scrolling in `direction` moves to, starting from a
    /// position that satisfies the bound.
    pub open spec fn spec_scroll(&self, direction: ScrollDirection) -> u16 {
        match direction {
            ScrollDirection::Up => if self.y_offset >= 1 {
                (self.y_offset - 1) as u16
            } else {
                0u16
            },
            ScrollDirection::Down => if self.y_offset < self.max_offset {
                (self.y_offset + 1) as u16
            } else {
                self.y_offset
            },
            ScrollDirection::Top => 0u16,
            ScrollDirection::Bottom => self.max_offset,
            ScrollDirection::PageUp => if self.y_offset >= self.page_height {
                (self.y_offset - self.page_height) as u16
            } else {
                0u16
            },
            ScrollDirection::PageDown => if self.y_offset + self.page_height
                <= self.max_offset {
                (self.y_offset + self.page_height) as u16
            } else {
                self.max_offset
            },
        }
    }

    /// Scroll in the given direction: by one line, by a page, or to either
    /// end, always saturating and always clamped to `[0, max_offset]`.
    pub fn scroll(&mut self, direction: ScrollDirection)
        requires
            old(self).wf(),
        ensures
            final(self).y_offset == old(self).spec_scroll(direction),
            final(self).max_offset == old(self).max_offset,
            final(self).page_height == old(self).page_height,
            final(self).wf(),
    {
        match direction {
            ScrollDirection::Up => {
                if self.y_offset >= 1 {
                    self.y_offset = self.y_offset - 1;
                } else {
                    self.y_offset = 0;
                }
            },
            ScrollDirection::Down => {
                if self.y_offset < self.max_offset {
                    self.y_offset = self.y_offset + 1;
                }
            },
            ScrollDirection::Top => {
                self.y_offset = 0;
            },
            ScrollDirection::Bottom => {
                self.y_offset = self.max_offset;
            },
            ScrollDirection::PageUp => {
                if self.y_offset >= self.page_height {
                    self.y_offset = self.y_offset - self.page_height;
                } else {
                    self.y_offset = 0;
                }
            },
            ScrollDirection::PageDown => {
                if self.max_offset - self.y_offset >= self.page_height {
                    self.y_offset = self.y_offset + self.page_height;
                } else {
                    self.y_offset = self.max_offset;
                }
            },
        }
    }

    /// Scroll to a specific offset, clamped to `max_offset`.
    pub fn scroll_to(&mut self, offset: u16)
        ensures
            final(self).y_offset == if offset <= old(self).max_offset {
                offset
            } else {
                old(self).max_offset
            },
            final(self).max_offset == old(self).max_offset,
            final(self).page_height == old(self).page_height,
            final(self).wf(),
    {
        self.y_offset = if offset <= self.max_offset { offset } else { self.max_offset };
    }
}

impl Default for ScrollHints {
    fn default() -> (r: Self)
        ensures
            r.max_offset == 0,
            r.y_offset == 0,
            r.page_height == 0,
            r.wf(),
    {
        ScrollHints::new()
    }
}

} // verus!
