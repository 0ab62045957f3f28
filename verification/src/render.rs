//! The diffing terminal renderer: two equally sized grids of styled cells,
//! `previous` (what has been sent to the terminal) and `next` (what should
//! be visible), and the minimal ANSI output that turns one into the other.
//!
//! A full repaint clears the screen and emits every cell; a diff repaint
//! re-addresses only the cells that changed. Both compress style runs:
//! an SGR sequence is emitted only when a cell's style differs from the
//! style of the last cell written.

use vstd::prelude::*;
use crate::style::{dec_chars, push_decimal, sgr_chars, sgr_for_style, Style};

verus! {

/// One terminal cell: a single glyph and its style.
#[derive(Clone, Copy, PartialEq, Eq, Structural, Debug)]
pub struct Cell {
    pub symbol: char,
    pub style: Style,
}

impl Cell {
    /// The blank cell terminals show after a clear.
    pub open spec fn spec_default() -> Cell {
        Cell { symbol: ' ', style: Style::spec_default() }
    }

    pub fn new(symbol: char, style: Style) -> (r: Cell)
        ensures
            r == (Cell { symbol, style }),
    {
        Cell { symbol, style }
    }
}

impl Default for Cell {
    fn default() -> (r: Cell)
        ensures
            r == Cell::spec_default(),
    {
        Cell { symbol: ' ', style: Style::new() }
    }
}

/// A full grid of cells, row-major: the cell at column `x`, row `y` sits at
/// index `y * width + x`.
#[derive(Debug)]
pub struct Frame {
    pub width: u16,
    pub height: u16,
    pub cells: Vec<Cell>,
}

impl Frame {
    /// The grid holds exactly one cell per position.
    pub open spec fn wf(&self) -> bool {
        self.cells@.len() == self.width as int * self.height as int
    }

    pub open spec fn spec_index(&self, x: int, y: int) -> int {
        y * self.width + x
    }

    /// The cell at column `x`, row `y`.
    pub open spec fn spec_cell(&self, x: int, y: int) -> Cell {
        self.cells@[self.spec_index(x, y)]
    }

    /// An all-blank frame.
    pub fn empty(width: u16, height: u16) -> (r: Frame)
        ensures
            r.width == width,
            r.height == height,
            r.wf(),
            forall|i: int| 0 <= i < r.cells@.len() ==> r.cells@[i] == Cell::spec_default(),
    {
        proof {
            vstd::arithmetic::mul::lemma_mul_upper_bound(
                width as int,
                u16::MAX as int,
                height as int,
                u16::MAX as int,
            );
        }
        let n: usize = (width as usize) * (height as usize);
        let mut cells: Vec<Cell> = Vec::new();
        let mut i: usize = 0;
        while i < n
            invariant
                i <= n,
                cells@.len() == i,
                forall|k: int| 0 <= k < i ==> cells@[k] == Cell::spec_default(),
            decreases n - i,
        {
            cells.push(Cell::default());
            i = i + 1;
        }
        Frame { width, height, cells }
    }

    /// Overwrite the cell at column `x`, row `y`.
    pub fn set_cell(&mut self, x: u16, y: u16, cell: Cell)
        requires
            old(self).wf(),
            x < old(self).width,
            y < old(self).height,
        ensures
            final(self).width == old(self).width,
            final(self).height == old(self).height,
            final(self).cells@ == old(self).cells@.update(old(self).spec_index(x as int, y as int), cell),
            final(self).wf(),
    {
        proof {
            lemma_index_in_range(self.width as int, self.height as int, x as int, y as int);
            vstd::arithmetic::mul::lemma_mul_upper_bound(
                y as int,
                u16::MAX as int,
                self.width as int,
                u16::MAX as int,
            );
        }
        let idx: usize = (y as usize) * (self.width as usize) + (x as usize);
        self.cells.set(idx, cell);
    }

    /// A copy of this frame.
    pub fn duplicate(&self) -> (r: Frame)
        requires
            self.wf(),
        ensures
            r.width == self.width,
            r.height == self.height,
            r.cells@ == self.cells@,
            r.wf(),
    {
        let n = self.cells.len();
        let mut cells: Vec<Cell> = Vec::new();
        let mut i: usize = 0;
        while i < n
            invariant
                i <= n,
                n == self.cells@.len(),
                cells@.len() == i,
                forall|k: int| 0 <= k < i ==> cells@[k] == self.cells@[k],
            decreases n - i,
        {
            cells.push(self.cells[i]);
            i = i + 1;
        }
        proof {
            assert(cells@ =~= self.cells@);
        }
        Frame { width: self.width, height: self.height, cells }
    }
}

/// Row-major position arithmetic stays inside the grid.
proof fn lemma_index_in_range(width: int, height: int, x: int, y: int)
    requires
        0 <= x < width,
        0 <= y < height,
    ensures
        0 <= y * width + x < width * height,
{
    assert(y * width + x < width * height) by (nonlinear_arith)
        requires
            0 <= x < width,
            0 <= y < height,
    ;
    assert(y * width >= 0) by (nonlinear_arith)
        requires
            y >= 0,
            width > 0,
    ;
}

/// The escape sequence that hides the cursor.
pub open spec fn hide_cursor_chars() -> Seq<char> {
    seq!['\u{1b}', '[', '?', '2', '5', 'l']
}

/// The escape sequence that shows the cursor.
pub open spec fn show_cursor_chars() -> Seq<char> {
    seq!['\u{1b}', '[', '?', '2', '5', 'h']
}

/// The escape sequence that resets all styling.
pub open spec fn reset_chars() -> Seq<char> {
    seq!['\u{1b}', '[', '0', 'm']
}

/// The clear-and-home sequence.
pub open spec fn clear_screen_chars() -> Seq<char> {
    seq!['\u{1b}', '[', '2', 'J', '\u{1b}', '[', 'H']
}

/// Cursor positioning: ANSI rows and columns are 1-based, `row;col`.
pub open spec fn goto_chars(x: int, y: int) -> Seq<char> {
    seq!['\u{1b}', '['] + dec_chars(y + 1) + seq![';'] + dec_chars(x + 1) + seq!['H']
}

/// Append the cursor-hide sequence.
pub fn push_hide_cursor(out: &mut Vec<char>)
    ensures
        final(out)@ == old(out)@ + hide_cursor_chars(),
{
    out.push('\u{1b}');
    out.push('[');
    out.push('?');
    out.push('2');
    out.push('5');
    out.push('l');
    proof {
        assert(out@ =~= old(out)@ + hide_cursor_chars());
    }
}

/// Append the cursor-show sequence.
pub fn push_show_cursor(out: &mut Vec<char>)
    ensures
        final(out)@ == old(out)@ + show_cursor_chars(),
{
    out.push('\u{1b}');
    out.push('[');
    out.push('?');
    out.push('2');
    out.push('5');
    out.push('h');
    proof {
        assert(out@ =~= old(out)@ + show_cursor_chars());
    }
}

/// Append the style-reset sequence.
pub fn push_reset(out: &mut Vec<char>)
    ensures
        final(out)@ == old(out)@ + reset_chars(),
{
    out.push('\u{1b}');
    out.push('[');
    out.push('0');
    out.push('m');
    proof {
        assert(out@ =~= old(out)@ + reset_chars());
    }
}

/// Append the clear-and-home sequence.
pub fn push_clear_screen(out: &mut Vec<char>)
    ensures
        final(out)@ == old(out)@ + clear_screen_chars(),
{
    out.push('\u{1b}');
    out.push('[');
    out.push('2');
    out.push('J');
    out.push('\u{1b}');
    out.push('[');
    out.push('H');
    proof {
        assert(out@ =~= old(out)@ + clear_screen_chars());
    }
}

/// Append a cursor-positioning sequence for column `x`, row `y` (0-based).
pub fn push_goto(out: &mut Vec<char>, x: u16, y: u16)
    ensures
        final(out)@ == old(out)@ + goto_chars(x as int, y as int),
{
    out.push('\u{1b}');
    out.push('[');
    push_decimal_u32(out, y as u32 + 1);
    out.push(';');
    push_decimal_u32(out, x as u32 + 1);
    out.push('H');
    proof {
        assert(out@ =~= old(out)@ + goto_chars(x as int, y as int));
    }
}

/// Append the decimal digits of a 32-bit value.
pub fn push_decimal_u32(out: &mut Vec<char>, n: u32)
    ensures
        final(out)@ == old(out)@ + dec_chars(n as int),
    decreases n,
{
    if n >= 10 {
        push_decimal_u32(out, n / 10);
    }
    let d: u16 = (n % 10) as u16;
    push_decimal(out, d);
    proof {
        assert(out@ =~= old(out)@ + dec_chars(n as int));
    }
}

} // verus!

verus! {

/// What one cell contributes to the output: an SGR sequence when its style
/// differs from the running style, then its glyph.
pub open spec fn cell_chars(c: Cell, last: Style) -> Seq<char> {
    (if c.style == last {
        Seq::<char>::empty()
    } else {
        sgr_chars(c.style)
    }) + seq![c.symbol]
}

/// One row of a full repaint, from column `x` on, with running style `last`.
pub open spec fn paint_row_from(f: Frame, x: int, y: int, last: Style) -> Seq<char>
    decreases f.width - x,
{
    if x < 0 || x >= f.width {
        Seq::empty()
    } else {
        cell_chars(f.spec_cell(x, y), last) + paint_row_from(f, x + 1, y, f.spec_cell(x, y).style)
    }
}

/// The running style after a full row has been painted.
pub open spec fn row_last_style(f: Frame, y: int, last: Style) -> Style {
    if f.width > 0 {
        f.spec_cell(f.width - 1, y).style
    } else {
        last
    }
}

/// The rows of a full repaint from row `y` on: each row is addressed at its
/// start and painted left to right, the running style carrying across rows.
pub open spec fn paint_rows_from(f: Frame, y: int, last: Style) -> Seq<char>
    decreases f.height - y,
{
    if y < 0 || y >= f.height {
        Seq::empty()
    } else {
        goto_chars(0, y) + paint_row_from(f, 0, y, last) + paint_rows_from(
            f,
            y + 1,
            row_last_style(f, y, last),
        )
    }
}

/// The complete output of a full repaint: hide the cursor, clear the
/// screen, reset styling, paint every row, reset, show the cursor.
pub open spec fn paint_full_chars(f: Frame) -> Seq<char> {
    hide_cursor_chars() + clear_screen_chars() + reset_chars() + paint_rows_from(
        f,
        0,
        Style::spec_default(),
    ) + reset_chars() + show_cursor_chars()
}

/// The changed-cell walk of a diff repaint, over the row-major index `i`:
/// a cell that differs between the frames is addressed and painted; an
/// unchanged cell emits nothing.
pub open spec fn diff_cells_from(prev: Frame, next: Frame, i: int, last: Style) -> Seq<char>
    decreases next.cells@.len() - i,
{
    if i < 0 || i >= next.cells@.len() {
        Seq::empty()
    } else if next.cells@[i] != prev.cells@[i] {
        goto_chars(i % next.width as int, i / next.width as int) + cell_chars(next.cells@[i], last)
            + diff_cells_from(prev, next, i + 1, next.cells@[i].style)
    } else {
        diff_cells_from(prev, next, i + 1, last)
    }
}

/// The complete output of a diff repaint.
pub open spec fn paint_diff_chars(prev: Frame, next: Frame) -> Seq<char> {
    hide_cursor_chars() + reset_chars() + diff_cells_from(prev, next, 0, Style::spec_default())
        + reset_chars() + show_cursor_chars()
}

/// Append one cell's contribution, keeping the running style.
fn push_cell(out: &mut Vec<char>, cell: Cell, last: Style) -> (new_last: Style)
    ensures
        final(out)@ == old(out)@ + cell_chars(cell, last),
        new_last == cell.style,
{
    if !(cell.style == last) {
        let mut sgr = sgr_for_style(cell.style);
        let mut k: usize = 0;
        let n = sgr.len();
        while k < n
            invariant
                k <= n,
                n == sgr@.len(),
                out@ == old(out)@ + sgr@.subrange(0, k as int),
            decreases n - k,
        {
            out.push(sgr[k]);
            proof {
                assert(out@ =~= old(out)@ + sgr@.subrange(0, k + 1));
            }
            k = k + 1;
        }
        proof {
            assert(sgr@.subrange(0, n as int) =~= sgr@);
        }
    }
    out.push(cell.symbol);
    proof {
        assert(out@ =~= old(out)@ + cell_chars(cell, last));
    }
    cell.style
}

} // verus!

verus! {

/// Emit a full repaint of `f`.
fn paint_full(f: &Frame) -> (out: Vec<char>)
    requires
        f.wf(),
    ensures
        out@ == paint_full_chars(*f),
{
    let mut out: Vec<char> = Vec::new();
    push_hide_cursor(&mut out);
    push_clear_screen(&mut out);
    push_reset(&mut out);
    let mut last = Style::new();
    let mut y: u16 = 0;
    while y < f.height
        invariant
            f.wf(),
            y <= f.height,
            out@ + paint_rows_from(*f, y as int, last) + reset_chars() + show_cursor_chars()
                =~= paint_full_chars(*f),
        decreases f.height - y,
    {
        let ghost row_entry_last = last;
        let ghost out_at_row_start = out@;
        push_goto(&mut out, 0, y);
        let mut x: u16 = 0;
        while x < f.width
            invariant
                f.wf(),
                y < f.height,
                x <= f.width,
                out@ =~= out_at_row_start + goto_chars(0, y as int) + (paint_row_from(
                    *f,
                    0,
                    y as int,
                    row_entry_last,
                ).subrange(
                    0,
                    paint_row_from(*f, 0, y as int, row_entry_last).len() - paint_row_from(
                        *f,
                        x as int,
                        y as int,
                        last,
                    ).len(),
                )),
                paint_row_from(*f, 0, y as int, row_entry_last) =~= out@.skip(
                    out_at_row_start.len() + goto_chars(0, y as int).len() as int,
                ) + paint_row_from(*f, x as int, y as int, last),
                if x == 0 {
                    last == row_entry_last
                } else {
                    last == f.spec_cell(x - 1, y as int).style
                },
            decreases f.width - x,
        {
            proof {
                lemma_index_in_range(f.width as int, f.height as int, x as int, y as int);
                vstd::arithmetic::mul::lemma_mul_upper_bound(
                    y as int,
                    u16::MAX as int,
                    f.width as int,
                    u16::MAX as int,
                );
            }
            let idx: usize = (y as usize) * (f.width as usize) + (x as usize);
            let cell = f.cells[idx];
            last = push_cell(&mut out, cell, last);
            x = x + 1;
            proof {
                assert(paint_row_from(*f, 0, y as int, row_entry_last) =~= out@.skip(
                    out_at_row_start.len() + goto_chars(0, y as int).len() as int,
                ) + paint_row_from(*f, x as int, y as int, last));
                assert(out@ =~= out_at_row_start + goto_chars(0, y as int) + (paint_row_from(
                    *f,
                    0,
                    y as int,
                    row_entry_last,
                ).subrange(
                    0,
                    paint_row_from(*f, 0, y as int, row_entry_last).len() - paint_row_from(
                        *f,
                        x as int,
                        y as int,
                        last,
                    ).len(),
                )));
            }
        }
        proof {
            assert(paint_row_from(*f, f.width as int, y as int, last) =~= Seq::<char>::empty());
            assert(out@ =~= out_at_row_start + goto_chars(0, y as int) + paint_row_from(
                *f,
                0,
                y as int,
                row_entry_last,
            ));
            assert(last == row_last_style(*f, y as int, row_entry_last));
            assert(paint_rows_from(*f, y as int, row_entry_last) =~= goto_chars(0, y as int)
                + paint_row_from(*f, 0, y as int, row_entry_last) + paint_rows_from(
                *f,
                y as int + 1,
                last,
            ));
            assert(out@ + paint_rows_from(*f, y as int + 1, last) + reset_chars()
                + show_cursor_chars() =~= out_at_row_start + paint_rows_from(
                *f,
                y as int,
                row_entry_last,
            ) + reset_chars() + show_cursor_chars());
        }
        y = y + 1;
    }
    push_reset(&mut out);
    push_show_cursor(&mut out);
    proof {
        assert(out@ =~= paint_full_chars(*f));
    }
    out
}

/// Emit a diff repaint: only the cells that differ between the frames.
fn paint_diff(prev: &Frame, next: &Frame) -> (out: Vec<char>)
    requires
        prev.wf(),
        next.wf(),
        prev.width == next.width,
        prev.height == next.height,
    ensures
        out@ == paint_diff_chars(*prev, *next),
{
    let mut out: Vec<char> = Vec::new();
    push_hide_cursor(&mut out);
    push_reset(&mut out);
    let mut last = Style::new();
    let len = next.cells.len();
    let mut i: usize = 0;
    while i < len
        invariant
            prev.wf(),
            next.wf(),
            prev.width == next.width,
            prev.height == next.height,
            len == next.cells@.len(),
            i <= len,
            out@ + diff_cells_from(*prev, *next, i as int, last) + reset_chars()
                + show_cursor_chars() =~= paint_diff_chars(*prev, *next),
        decreases len - i,
    {
        let c = next.cells[i];
        let p = prev.cells[i];
        let ghost out_before = out@;
        let ghost last_before = last;
        if !(c == p) {
            proof {
                if next.width == 0 {
                    assert(next.width as int * next.height as int == 0);
                    assert(false);
                }
                vstd::arithmetic::div_mod::lemma_mod_bound(i as int, next.width as int);
                vstd::arithmetic::div_mod::lemma_multiply_divide_lt(
                    i as int,
                    next.width as int,
                    next.height as int,
                );
            }
            let w = next.width as usize;
            let x: u16 = (i % w) as u16;
            let y: u16 = (i / w) as u16;
            push_goto(&mut out, x, y);
            last = push_cell(&mut out, c, last);
        }
        i = i + 1;
        proof {
            assert(out@ + diff_cells_from(*prev, *next, i as int, last) =~= out_before
                + diff_cells_from(*prev, *next, i - 1, last_before));
            assert(out@ + diff_cells_from(*prev, *next, i as int, last) + reset_chars()
                + show_cursor_chars() =~= paint_diff_chars(*prev, *next));
        }
    }
    push_reset(&mut out);
    push_show_cursor(&mut out);
    proof {
        assert(out@ =~= paint_diff_chars(*prev, *next));
    }
    out
}

} // verus!

verus! {

/// The cell grid after the sparse updates from position `i` on have been
/// laid in; an update outside the grid is ignored.
pub open spec fn apply_updates_cells(
    cells: Seq<Cell>,
    width: u16,
    height: u16,
    ups: Seq<(u16, u16, Cell)>,
    i: int,
) -> Seq<Cell>
    decreases ups.len() - i,
{
    if i < 0 || i >= ups.len() {
        cells
    } else {
        let u = ups[i];
        let stepped = if u.0 < width && u.1 < height {
            cells.update(u.1 as int * width as int + u.0 as int, u.2)
        } else {
            cells
        };
        apply_updates_cells(stepped, width, height, ups, i + 1)
    }
}

/// The diffing renderer's state: the frame that has been sent to the
/// terminal, whether the next draw must repaint everything, and the
/// tracked cursor position.
pub struct Renderer {
    pub prev: Frame,
    pub force_full_repaint: bool,
    pub cursor_x: u16,
    pub cursor_y: u16,
}

impl Renderer {
    pub open spec fn wf(&self) -> bool {
        self.prev.wf()
    }

    pub open spec fn spec_width(&self) -> u16 {
        self.prev.width
    }

    pub open spec fn spec_height(&self) -> u16 {
        self.prev.height
    }

    /// A renderer for a fixed-size terminal; the first draw is a full
    /// repaint.
    pub fn new(width: u16, height: u16) -> (r: Self)
        ensures
            r.wf(),
            r.spec_width() == width,
            r.spec_height() == height,
            r.force_full_repaint,
            r.cursor_x == 0 && r.cursor_y == 0,
            forall|i: int|
                0 <= i < r.prev.cells@.len() ==> r.prev.cells@[i] == Cell::spec_default(),
    {
        Renderer {
            prev: Frame::empty(width, height),
            force_full_repaint: true,
            cursor_x: 0,
            cursor_y: 0,
        }
    }

    /// The terminal size fixed at construction.
    pub fn size(&self) -> (r: (u16, u16))
        ensures
            r.0 == self.spec_width(),
            r.1 == self.spec_height(),
    {
        (self.prev.width, self.prev.height)
    }

    /// The bytes that hide the cursor.
    pub fn hide_cursor(&self) -> (out: Vec<char>)
        ensures
            out@ == hide_cursor_chars(),
    {
        let mut out: Vec<char> = Vec::new();
        push_hide_cursor(&mut out);
        out
    }

    /// The bytes that show the cursor.
    pub fn show_cursor(&self) -> (out: Vec<char>)
        ensures
            out@ == show_cursor_chars(),
    {
        let mut out: Vec<char> = Vec::new();
        push_show_cursor(&mut out);
        out
    }

    /// The tracked cursor position (a serial line cannot be queried).
    pub fn get_cursor_position(&self) -> (r: (u16, u16))
        ensures
            r.0 == self.cursor_x,
            r.1 == self.cursor_y,
    {
        (self.cursor_x, self.cursor_y)
    }

    /// Track and address a new cursor position.
    pub fn set_cursor_position(&mut self, x: u16, y: u16) -> (out: Vec<char>)
        ensures
            final(self).cursor_x == x,
            final(self).cursor_y == y,
            final(self).prev == old(self).prev,
            final(self).force_full_repaint == old(self).force_full_repaint,
            out@ == goto_chars(x as int, y as int),
    {
        self.cursor_x = x;
        self.cursor_y = y;
        let mut out: Vec<char> = Vec::new();
        push_goto(&mut out, x, y);
        out
    }

    /// Ask the next draw to clear the screen and repaint everything.
    pub fn request_full_repaint(&mut self)
        ensures
            final(self).force_full_repaint,
            final(self).prev == old(self).prev,
            final(self).cursor_x == old(self).cursor_x,
            final(self).cursor_y == old(self).cursor_y,
    {
        self.force_full_repaint = true;
    }

    /// Clear the physical screen and forget the previous frame, so the next
    /// draw diffs against a blank terminal rather than stale content.
    pub fn clear(&mut self) -> (out: Vec<char>)
        requires
            old(self).wf(),
        ensures
            final(self).wf(),
            final(self).spec_width() == old(self).spec_width(),
            final(self).spec_height() == old(self).spec_height(),
            forall|i: int|
                0 <= i < final(self).prev.cells@.len() ==> final(self).prev.cells@[i]
                    == Cell::spec_default(),
            !final(self).force_full_repaint,
            final(self).cursor_x == 0 && final(self).cursor_y == 0,
            out@ == hide_cursor_chars() + clear_screen_chars() + reset_chars(),
    {
        let mut out: Vec<char> = Vec::new();
        push_hide_cursor(&mut out);
        push_clear_screen(&mut out);
        push_reset(&mut out);
        self.prev = Frame::empty(self.prev.width, self.prev.height);
        self.force_full_repaint = false;
        self.cursor_x = 0;
        self.cursor_y = 0;
        proof {
            assert(out@ =~= hide_cursor_chars() + clear_screen_chars() + reset_chars());
        }
        out
    }

    /// Apply sparse cell updates onto a copy of the previous frame, emit
    /// either a full repaint or a diff repaint against it, and keep the
    /// result as the new previous frame.
    pub fn draw(&mut self, content: &Vec<(u16, u16, Cell)>) -> (out: Vec<char>)
        requires
            old(self).wf(),
        ensures
            final(self).wf(),
            final(self).spec_width() == old(self).spec_width(),
            final(self).spec_height() == old(self).spec_height(),
            final(self).prev.cells@ == apply_updates_cells(
                old(self).prev.cells@,
                old(self).spec_width(),
                old(self).spec_height(),
                content@,
                0,
            ),
            !final(self).force_full_repaint,
            final(self).cursor_x == old(self).cursor_x,
            final(self).cursor_y == old(self).cursor_y,
            out@ == if old(self).force_full_repaint {
                paint_full_chars(final(self).prev)
            } else {
                paint_diff_chars(old(self).prev, final(self).prev)
            },
    {
        let ghost orig = self.prev.cells@;
        let ghost w = self.prev.width;
        let ghost h = self.prev.height;
        let mut next = self.prev.duplicate();
        let len = content.len();
        let mut i: usize = 0;
        while i < len
            invariant
                next.wf(),
                next.width == w,
                next.height == h,
                len == content@.len(),
                i <= len,
                apply_updates_cells(next.cells@, w, h, content@, i as int) == apply_updates_cells(
                    orig,
                    w,
                    h,
                    content@,
                    0,
                ),
            decreases len - i,
        {
            let u = content[i];
            if u.0 < next.width && u.1 < next.height {
                next.set_cell(u.0, u.1, u.2);
            }
            i = i + 1;
        }
        let out = if self.force_full_repaint {
            paint_full(&next)
        } else {
            paint_diff(&self.prev, &next)
        };
        self.force_full_repaint = false;
        self.prev = next;
        out
    }
}

proof fn lemma_diff_identical_quiet(f: Frame, i: int, last: Style)
    ensures
        diff_cells_from(f, f, i, last) == Seq::<char>::empty(),
    decreases f.cells@.len() - i,
{
    if 0 <= i < f.cells@.len() {
        lemma_diff_identical_quiet(f, i + 1, last);
    }
}

/// Renderer round-trip law: a diff repaint between two identical frames
/// performs zero cell writes; nothing is emitted beyond the cursor-hide,
/// style-reset and cursor-show bracketing. In particular, after a full
/// repaint of a frame, a draw with identical content emits only that
/// bracketing.
pub proof fn lemma_identical_draw_is_quiet(f: Frame)
    ensures
        paint_diff_chars(f, f) == hide_cursor_chars() + reset_chars() + reset_chars()
            + show_cursor_chars(),
{
    lemma_diff_identical_quiet(f, 0, Style::spec_default());
    assert(paint_diff_chars(f, f) =~= hide_cursor_chars() + reset_chars() + reset_chars()
        + show_cursor_chars());
}

} // verus!
