//! Core of a terminal text editor: a line-oriented text buffer, a cursor
//! with a remembered preferred column, a viewport that maps a window of
//! buffer lines onto a fixed-height display, and a controller that turns
//! abstract input commands into buffer edits and cursor moves.
use vstd::prelude::*;

pub mod buffer;
pub mod cursor;
pub mod text;

use crate::buffer::{
    delete_range_result, is_window, join_lines, split_lines, Buffer, BufferPosition,
    BufferSelection,
};
use crate::cursor::Cursor;

verus! {

/// An error raised by a structural edit on the line store.
#[derive(Debug, Clone, Copy, PartialEq, Eq, Structural)]
pub enum EditError {
    /// A position or range exceeds the current buffer shape.
    OutOfBounds,
    /// A range whose end precedes its start in document order.
    InvalidRange,
}

/// An abstract input command, as the input source hands them over one at
/// a time.
#[derive(Debug, Clone, Copy)]
pub enum Command {
    MoveLeft,
    MoveRight,
    MoveUp,
    MoveDown,
    InsertChar(char),
    DeleteBefore,
    DeleteAfter,
    SplitLine,
    JoinLine,
    DeleteRange(BufferSelection),
    Quit,
}

/// What the render sink must redraw after a processed command: only the
/// cursor (and status), or the whole visible window.
#[derive(Debug, Clone, Copy, PartialEq, Eq, Structural)]
pub enum RenderRequest {
    CursorOnly,
    FullWindow,
}

/// The outcome of one processed command: carry on (with the redraw the
/// command calls for), reject it leaving every state untouched, or quit.
#[derive(Debug, Clone, Copy, PartialEq, Eq, Structural)]
pub enum CommandOutcome {
    Continue(RenderRequest),
    Rejected(EditError),
    Quit,
}

enum EditorMode {
    Normal,
}

/// The number of decimal digits of `n`.
pub open spec fn dec_width(n: nat) -> nat
    decreases n,
{
    if n < 10 {
        1
    } else {
        1 + dec_width(n / 10)
    }
}

spec fn pow10(k: nat) -> nat
    decreases k,
{
    if k == 0 {
        1
    } else {
        10 * pow10((k - 1) as nat)
    }
}

proof fn lemma_dec_width_le(n: nat, k: nat)
    requires
        1 <= k,
        n < pow10(k),
    ensures
        dec_width(n) <= k,
    decreases k,
{
    if n < 10 {
    } else {
        if k == 1 {
            assert(pow10(1) == 10) by {
                reveal_with_fuel(pow10, 3);
            };
            assert(false);
        }
        let p = pow10((k - 1) as nat);
        assert(n < 10 * p);
        assert(n / 10 < p) by {
            assert(n >= 10 * (n / 10) >= 0) by (nonlinear_arith);
            if n / 10 >= p {
                assert(10 * (n / 10) >= 10 * p) by (nonlinear_arith)
                    requires n / 10 >= p,
                ;
            }
        };
        lemma_dec_width_le(n / 10, (k - 1) as nat);
    }
}

/// The number of decimal digits `n` prints as.
pub fn decimal_width(n: usize) -> (w: u16)
    ensures
        w == dec_width(n as nat),
        1 <= w <= 20,
{
    proof {
        assert(pow10(20) == 0x56bc75e2d63100000) by {
            reveal_with_fuel(pow10, 21);
        };
        assert((n as nat) < pow10(20));
        lemma_dec_width_le(n as nat, 20);
    }
    let mut m: usize = n;
    let mut w: u16 = 1;
    while m >= 10
        invariant
            1 <= w <= 20,
            dec_width(n as nat) == (w - 1) + dec_width(m as nat),
            dec_width(n as nat) <= 20,
        decreases m,
    {
        proof {
            assert(dec_width(m as nat) == 1 + dec_width((m / 10) as nat));
            assert(dec_width((m / 10) as nat) >= 1);
        }
        m = m / 10;
        w = w + 1;
    }
    w
}

/// The line-number column of the display: its width (the decimal width of
/// the largest line number plus one separator column) and the absolute
/// line numbers of the rows on screen.
pub struct NumColumn {
    width: u16,
    nums: Vec<u16>,
}

impl NumColumn {
    pub closed spec fn spec_width(&self) -> u16 {
        self.width
    }

    pub closed spec fn spec_nums(&self) -> Seq<u16> {
        self.nums@
    }

    pub fn new() -> (n: Self)
        ensures
            n.spec_width() == 0,
            n.spec_nums() == Seq::<u16>::empty(),
    {
        Self { width: 0, nums: vec![] }
    }

    pub fn update_width(&mut self, new_width: u16)
        ensures
            final(self).spec_width() == new_width,
            final(self).spec_nums() == old(self).spec_nums(),
    {
        self.width = new_width
    }

    pub fn update_nums(&mut self, new_nums: Vec<u16>)
        ensures
            final(self).spec_nums() == new_nums@,
            final(self).spec_width() == old(self).spec_width(),
    {
        self.nums = new_nums
    }

    pub fn get_width(&self) -> (r: u16)
        ensures
            r == self.spec_width(),
    {
        self.width
    }

    pub fn get_nums(&self) -> (r: &Vec<u16>)
        ensures
            r@ == self.spec_nums(),
    {
        &self.nums
    }

    /// Takes over the absolute line numbers of the given window rows.
    pub fn update(&mut self, lines: Vec<(u16, String)>)
        ensures
            final(self).spec_nums() == lines@.map_values(|l: (u16, String)| l.0),
            final(self).spec_width() == old(self).spec_width(),
    {
        let mut nums: Vec<u16> = Vec::new();
        let mut i: usize = 0;
        while i < lines.len()
            invariant
                i <= lines@.len(),
                nums@.len() == i,
                forall|j: int| 0 <= j < i ==> nums@[j] == (#[trigger] lines@[j]).0,
            decreases lines@.len() - i,
        {
            nums.push(lines[i].0);
            i = i + 1;
        }
        proof {
            assert(nums@ =~= lines@.map_values(|l: (u16, String)| l.0));
        }
        self.update_nums(nums);
    }
}

/// The status row's own state. It has none yet: what it shows is computed
/// from the editor at render time.
pub struct StatusLine {}

impl StatusLine {
    pub fn new() -> Self {
        Self {  }
    }
}

/// The column a vertical move lands on: the preferred column, clamped to
/// the last column of a line of length `len` (an empty line forces 0).
pub open spec fn vclamp(opt: int, len: int) -> int {
    let max = if len == 0 {
        0
    } else {
        len - 1
    };
    if opt <= max {
        opt
    } else {
        max
    }
}

/// The preferred column clamped against a line of `len` characters.
fn clamp_col(opt_col: u16, len: usize) -> (c: u16)
    ensures
        c as int == vclamp(opt_col as int, len as int),
{
    let max: usize = if len == 0 {
        0
    } else {
        len - 1
    };
    if opt_col as usize <= max {
        opt_col
    } else {
        max as u16
    }
}

/// The document, the window height and the file name are untouched.
pub open spec fn same_doc(a: Editor, b: Editor) -> bool {
    &&& b.buf() == a.buf()
    &&& b.rows() == a.rows()
    &&& b.file_name() == a.file_name()
}

/// One step left: the column drops by one and becomes the preferred
/// column; at column 0 the cursor is untouched.
pub open spec fn moved_left(a: Editor, b: Editor) -> bool {
    &&& same_doc(a, b)
    &&& b.scroll() == a.scroll()
    &&& b.window() == a.window()
    &&& if a.col() > 0 {
        &&& b.cur().spec_pos() == (((a.col() - 1) as u16, a.cur().spec_pos().1))
        &&& b.cur().spec_prev_pos() == a.cur().spec_pos()
        &&& b.opt_col() == a.col() - 1
    } else {
        b.cur() == a.cur()
    }
}

/// One step right: the column grows by one and becomes the preferred
/// column; on the line's last character, or on an empty line, the cursor
/// is untouched (so is it at the column cap of the cursor type).
pub open spec fn moved_right(a: Editor, b: Editor) -> bool {
    &&& same_doc(a, b)
    &&& b.scroll() == a.scroll()
    &&& b.window() == a.window()
    &&& if a.col() + 1 < a.cur_line().len() && a.col() < u16::MAX {
        &&& b.cur().spec_pos() == (((a.col() + 1) as u16, a.cur().spec_pos().1))
        &&& b.cur().spec_prev_pos() == a.cur().spec_pos()
        &&& b.opt_col() == a.col() + 1
    } else {
        b.cur() == a.cur()
    }
}

/// One line up: a no-op at the document's first line; otherwise the row
/// drops by one, or the viewport scrolls up when the cursor sits on the
/// window's top row, and the column becomes the preferred column clamped
/// to the target line. The preferred column itself is kept.
pub open spec fn moved_up(a: Editor, b: Editor, scrolled: bool) -> bool {
    &&& same_doc(a, b)
    &&& b.opt_col() == a.opt_col()
    &&& if a.abs_line() == 0 {
        &&& !scrolled
        &&& b.cur() == a.cur()
        &&& b.scroll() == a.scroll()
        &&& b.window() == a.window()
    } else {
        &&& b.cur().spec_pos().0 as int == vclamp(a.opt_col(), a.buf()[a.abs_line() - 1].len() as int)
        &&& b.cur().spec_prev_pos() == a.cur().spec_pos()
        &&& if a.row() == 0 {
            &&& scrolled
            &&& b.scroll() == a.scroll() - 1
            &&& b.row() == 0
        } else {
            &&& !scrolled
            &&& b.scroll() == a.scroll()
            &&& b.window() == a.window()
            &&& b.row() == a.row() - 1
        }
    }
}

/// One line down: a no-op at the document's last line; otherwise the row
/// grows by one, or the viewport scrolls down when the cursor sits on the
/// window's bottom row (unless the window's indices are at their
/// representable cap), with the same column clamping as `moved_up`.
pub open spec fn moved_down(a: Editor, b: Editor, scrolled: bool) -> bool {
    &&& same_doc(a, b)
    &&& b.opt_col() == a.opt_col()
    &&& if a.abs_line() + 1 < a.buf().len() && (a.row() + 1 < a.rows() || a.scroll() + a.rows()
        <= u16::MAX) {
        &&& b.cur().spec_pos().0 as int == vclamp(a.opt_col(), a.buf()[a.abs_line() + 1].len() as int)
        &&& b.cur().spec_prev_pos() == a.cur().spec_pos()
        &&& if a.row() + 1 < a.rows() {
            &&& !scrolled
            &&& b.scroll() == a.scroll()
            &&& b.window() == a.window()
            &&& b.row() == a.row() + 1
        } else {
            &&& scrolled
            &&& b.scroll() == a.scroll() + 1
            &&& b.row() == a.row()
        }
    } else {
        &&& !scrolled
        &&& b.cur() == a.cur()
        &&& b.scroll() == a.scroll()
        &&& b.window() == a.window()
    }
}

/// A character inserted at the cursor: the cursor's line gains `c` before
/// the cursor's column and the cursor advances past it, the new column
/// becoming the preferred column (at the column cap of the cursor type
/// the cursor stays).
pub open spec fn inserted(a: Editor, b: Editor, c: char) -> bool {
    &&& b.buf() == a.buf().update(a.abs_line(), a.cur_line().insert(a.col(), c))
    &&& b.rows() == a.rows()
    &&& b.file_name() == a.file_name()
    &&& b.scroll() == a.scroll()
    &&& b.row() == a.row()
    &&& if a.col() < u16::MAX {
        &&& b.col() == a.col() + 1
        &&& b.opt_col() == b.col()
        &&& b.cur().spec_prev_pos() == a.cur().spec_pos()
    } else {
        b.cur() == a.cur()
    }
}

/// The character before the cursor removed, the cursor following it one
/// column left (which becomes the preferred column); at column 0 nothing
/// changes.
pub open spec fn deleted_before(a: Editor, b: Editor) -> bool {
    &&& b.rows() == a.rows()
    &&& b.file_name() == a.file_name()
    &&& b.scroll() == a.scroll()
    &&& b.row() == a.row()
    &&& if a.col() > 0 {
        &&& b.buf() == a.buf().update(a.abs_line(), a.cur_line().remove(a.col() - 1))
        &&& b.col() == a.col() - 1
        &&& b.opt_col() == b.col()
        &&& b.cur().spec_prev_pos() == a.cur().spec_pos()
    } else {
        &&& b.buf() == a.buf()
        &&& b.cur() == a.cur()
        &&& b.window() == a.window()
    }
}

/// The character under the cursor removed, the cursor staying put; past
/// the line's end nothing changes.
pub open spec fn deleted_after(a: Editor, b: Editor) -> bool {
    &&& b.rows() == a.rows()
    &&& b.file_name() == a.file_name()
    &&& b.scroll() == a.scroll()
    &&& b.cur() == a.cur()
    &&& if a.col() < a.cur_line().len() {
        b.buf() == a.buf().update(a.abs_line(), a.cur_line().remove(a.col()))
    } else {
        &&& b.buf() == a.buf()
        &&& b.window() == a.window()
    }
}

/// The cursor's line split at the cursor, the cursor landing at the start
/// of the suffix line: one row further down, or on the same bottom row
/// with the viewport scrolled (when the window's indices are at their
/// representable cap the cursor stays on the prefix instead).
pub open spec fn line_split(a: Editor, b: Editor) -> bool {
    &&& b.buf() == split_lines(a.buf(), a.abs_line(), a.col())
    &&& b.rows() == a.rows()
    &&& b.file_name() == a.file_name()
    &&& if a.row() + 1 < a.rows() {
        &&& b.scroll() == a.scroll()
        &&& b.cur().spec_pos() == ((0u16, (a.row() + 1) as u16))
        &&& b.opt_col() == 0
        &&& b.cur().spec_prev_pos() == a.cur().spec_pos()
    } else if a.scroll() + a.rows() <= u16::MAX {
        &&& b.scroll() == a.scroll() + 1
        &&& b.cur().spec_pos() == ((0u16, a.cur().spec_pos().1))
        &&& b.opt_col() == 0
        &&& b.cur().spec_prev_pos() == a.cur().spec_pos()
    } else {
        &&& b.scroll() == a.scroll()
        &&& b.cur() == a.cur()
    }
}

/// The next line joined onto the cursor's line, the cursor staying put;
/// at the document's last line the join fails and nothing changes.
pub open spec fn line_joined(a: Editor, b: Editor, r: Result<(), EditError>) -> bool {
    &&& b.rows() == a.rows()
    &&& b.file_name() == a.file_name()
    &&& b.scroll() == a.scroll()
    &&& b.cur() == a.cur()
    &&& if a.abs_line() + 1 < a.buf().len() {
        &&& r is Ok
        &&& b.buf() == join_lines(a.buf(), a.abs_line())
    } else {
        &&& r == Err::<(), EditError>(EditError::OutOfBounds)
        &&& b.buf() == a.buf()
        &&& b.window() == a.window()
    }
}

/// The selected span deleted and the view reset to the document's top,
/// the cursor at the origin; a selection out of order or out of the
/// buffer's shape is rejected with the matching error and nothing
/// changes.
pub open spec fn selection_deleted(
    a: Editor,
    b: Editor,
    sel: BufferSelection,
    r: Result<(), EditError>,
) -> bool {
    &&& b.rows() == a.rows()
    &&& b.file_name() == a.file_name()
    &&& if !sel.ordered() {
        &&& r == Err::<(), EditError>(EditError::InvalidRange)
        &&& b.buf() == a.buf()
        &&& b.scroll() == a.scroll()
        &&& b.cur() == a.cur()
        &&& b.window() == a.window()
    } else if !sel.in_bounds(a.buf()) {
        &&& r == Err::<(), EditError>(EditError::OutOfBounds)
        &&& b.buf() == a.buf()
        &&& b.scroll() == a.scroll()
        &&& b.cur() == a.cur()
        &&& b.window() == a.window()
    } else {
        &&& r is Ok
        &&& b.buf() == delete_range_result(a.buf(), sel)
        &&& b.scroll() == 0
        &&& b.cur().spec_pos() == ((0u16, 0u16))
        &&& b.opt_col() == 0
    }
}

/// The viewport one line higher, clamped at the document's top; the
/// cursor keeps its window row (so it lands on the previous absolute
/// line) and its column is re-clamped from the preferred column.
pub open spec fn scrolled_up(a: Editor, b: Editor) -> bool {
    &&& same_doc(a, b)
    &&& b.opt_col() == a.opt_col()
    &&& if a.scroll() > 0 {
        &&& b.scroll() == a.scroll() - 1
        &&& b.row() == a.row()
        &&& b.cur().spec_pos().0 as int == vclamp(a.opt_col(), a.buf()[a.abs_line() - 1].len() as int)
        &&& b.cur().spec_prev_pos() == a.cur().spec_pos()
    } else {
        &&& b.scroll() == a.scroll()
        &&& b.cur() == a.cur()
        &&& b.window() == a.window()
    }
}

/// The viewport one line lower, clamped so the offset never passes the
/// document's last line (nor the representable cap of window indices);
/// the cursor keeps its window row where that still addresses a real
/// line and otherwise moves up to the last one, its column re-clamped
/// from the preferred column.
pub open spec fn scrolled_down(a: Editor, b: Editor) -> bool {
    &&& same_doc(a, b)
    &&& b.opt_col() == a.opt_col()
    &&& if a.scroll() + 1 < a.buf().len() && a.scroll() + a.rows() <= u16::MAX {
        &&& b.scroll() == a.scroll() + 1
        &&& b.row() == (if a.scroll() + 1 + a.row() < a.buf().len() {
            a.row()
        } else {
            a.buf().len() - 1 - (a.scroll() + 1)
        })
        &&& b.cur().spec_pos().0 as int == vclamp(a.opt_col(), a.buf()[b.abs_line()].len() as int)
        &&& b.cur().spec_prev_pos() == a.cur().spec_pos()
    } else {
        &&& b.scroll() == a.scroll()
        &&& b.cur() == a.cur()
        &&& b.window() == a.window()
    }
}

/// The edit/navigation controller: owns the document, the cursor, the
/// scroll offset and the cached visible window, and keeps them mutually
/// consistent across every command.
pub struct Editor {
    buffer: Buffer,
    scroll_offset: usize,
    cursor: Cursor,
    #[allow(dead_code)]
    mode: EditorMode,
    lines: Vec<(u16, String)>,
    num_col: NumColumn,
    #[allow(dead_code)]
    status_line: StatusLine,
    visible_rows: usize,
}

impl Editor {
    /// The document's lines.
    pub closed spec fn buf(&self) -> Seq<Seq<char>> {
        self.buffer@
    }

    /// The absolute index of the first visible line.
    pub closed spec fn scroll(&self) -> int {
        self.scroll_offset as int
    }

    /// The height of the visible window.
    pub closed spec fn rows(&self) -> int {
        self.visible_rows as int
    }

    /// The cursor state.
    pub closed spec fn cur(&self) -> Cursor {
        self.cursor
    }

    /// The cursor's column.
    pub open spec fn col(&self) -> int {
        self.cur().spec_pos().0 as int
    }

    /// The cursor's row within the window.
    pub open spec fn row(&self) -> int {
        self.cur().spec_pos().1 as int
    }

    /// The remembered preferred column.
    pub open spec fn opt_col(&self) -> int {
        self.cur().spec_opt_col() as int
    }

    /// The absolute index of the line the cursor is on.
    pub open spec fn abs_line(&self) -> int {
        self.scroll() + self.row()
    }

    /// The line the cursor is on.
    pub open spec fn cur_line(&self) -> Seq<char> {
        self.buf()[self.abs_line()]
    }

    /// The cached visible window.
    pub closed spec fn window(&self) -> Seq<(u16, String)> {
        self.lines@
    }

    /// The name of the file the document came from.
    pub closed spec fn file_name(&self) -> Seq<char> {
        self.buffer.file_name()
    }

    /// The line-number column's state: its width and the shown numbers.
    pub closed spec fn gutter(&self) -> (u16, Seq<u16>) {
        (self.num_col.spec_width(), self.num_col.spec_nums())
    }

    /// The controller's invariant, held before and after every command:
    /// the document is never empty; the window has at least one row and
    /// its absolute indices stay representable; the cursor sits inside
    /// the window, on an existing line, its column never beyond that
    /// line's end; the cached window rows are exactly the viewport
    /// projection of the document at the current scroll offset; and the
    /// line-number column matches the document and the window.
    pub closed spec fn wf(&self) -> bool {
        &&& self.buffer.wf()
        &&& 1 <= self.visible_rows
        &&& self.scroll_offset + self.visible_rows <= u16::MAX + 1
        &&& self.row() < self.rows()
        &&& self.abs_line() < self.buf().len()
        &&& self.col() <= self.cur_line().len()
        &&& is_window(self.lines@, self.buffer@, self.scroll(), self.rows())
        &&& self.num_col.spec_width() == dec_width(self.buf().len() as nat) + 1
        &&& self.num_col.spec_nums() == Seq::new(self.rows() as nat, |i: int| (self.scroll() + i) as u16)
    }

    /// Law: what the controller's invariant guarantees of every reachable
    /// state. The cached window always has exactly the visible number of
    /// rows; row `i` carries the absolute index `scroll + i`, a real row
    /// its line's text and a past-end row (one whose index is at or
    /// beyond the line count) the empty text. The cursor always sits
    /// inside the window, on an existing line, its column at most that
    /// line's length. The line-number column's width is the decimal width
    /// of the line count plus one, and it numbers exactly the shown rows.
    pub proof fn lemma_editor_invariant(&self)
        requires
            self.wf(),
        ensures
            is_window(self.window(), self.buf(), self.scroll(), self.rows()),
            self.buf().len() >= 1,
            self.rows() >= 1,
            0 <= self.row() < self.rows(),
            0 <= self.abs_line() < self.buf().len(),
            0 <= self.col() <= self.cur_line().len(),
            self.gutter().0 == dec_width(self.buf().len() as nat) + 1,
            self.gutter().1 == Seq::new(self.rows() as nat, |i: int| (self.scroll() + i) as u16),
    {
    }

    /// Recomputes everything derived from the document and the scroll
    /// offset: the cached window and the line-number column.
    fn refresh(&mut self)
        requires
            old(self).scroll_offset + old(self).visible_rows <= u16::MAX + 1,
        ensures
            is_window(final(self).lines@, final(self).buffer@, final(self).scroll(), final(self).rows()),
            final(self).num_col.spec_width() == dec_width(final(self).buf().len() as nat) + 1,
            final(self).num_col.spec_nums() == Seq::new(
                final(self).rows() as nat,
                |i: int| (final(self).scroll() + i) as u16,
            ),
            final(self).buffer == old(self).buffer,
            final(self).cursor == old(self).cursor,
            final(self).scroll_offset == old(self).scroll_offset,
            final(self).visible_rows == old(self).visible_rows,
    {
        self.lines = self.buffer.get_n_lines(self.visible_rows, self.scroll_offset);
        self.update_num_col_width();
        let mut nums: Vec<u16> = Vec::new();
        let mut i: usize = 0;
        while i < self.lines.len()
            invariant
                i <= self.lines@.len(),
                nums@.len() == i,
                forall|j: int| 0 <= j < i ==> nums@[j] == (#[trigger] self.lines@[j]).0,
            decreases self.lines@.len() - i,
        {
            let idx = self.lines[i].0;
            nums.push(idx);
            i = i + 1;
        }
        self.num_col.update_nums(nums);
        proof {
            assert forall|j: int| 0 <= j < self.rows() implies self.num_col.spec_nums()[j] == (
            self.scroll() + j) as u16 by {
                assert(self.lines@[j].0 == self.scroll() + j);
            }
            assert(self.num_col.spec_nums() =~= Seq::new(
                self.rows() as nat,
                |i: int| (self.scroll() + i) as u16,
            ));
        }
    }

    /// A controller over an empty document, shown in a window of one row.
    pub fn new() -> (e: Editor)
        ensures
            e.wf(),
            e.buf() =~= seq![Seq::<char>::empty()],
            e.scroll() == 0,
            e.rows() == 1,
            e.col() == 0 && e.row() == 0 && e.opt_col() == 0,
    {
        Self::build(Buffer::new(), 1)
    }

    /// A controller over the given document, shown in a window of
    /// `visible_rows` rows, scrolled to the top, the cursor at the origin.
    pub fn build(buffer: Buffer, visible_rows: u16) -> (e: Editor)
        requires
            buffer.wf(),
            visible_rows >= 1,
        ensures
            e.wf(),
            e.buf() == buffer@,
            e.rows() == visible_rows as int,
            e.scroll() == 0,
            e.col() == 0 && e.row() == 0 && e.opt_col() == 0,
    {
        let mut e = Editor {
            buffer,
            scroll_offset: 0,
            cursor: Cursor::new(),
            mode: EditorMode::Normal,
            lines: Vec::new(),
            num_col: NumColumn::new(),
            status_line: StatusLine::new(),
            visible_rows: visible_rows as usize,
        };
        e.refresh();
        e
    }

    /// Swaps in another document; the view returns to the top and the
    /// cursor to the origin.
    pub fn change_buffer(&mut self, buffer: Buffer)
        requires
            old(self).wf(),
            buffer.wf(),
        ensures
            final(self).wf(),
            final(self).buf() == buffer@,
            final(self).rows() == old(self).rows(),
            final(self).scroll() == 0,
            final(self).col() == 0 && final(self).row() == 0 && final(self).opt_col() == 0,
    {
        self.buffer = buffer;
        self.scroll_offset = 0;
        self.cursor = Cursor::new();
        self.refresh();
    }

    /// The cursor, for rendering it and the status row.
    pub fn get_cursor(&self) -> (r: &Cursor)
        ensures
            *r == self.cur(),
    {
        &self.cursor
    }

    /// The document, for rendering and inspection.
    pub fn get_buffer(&self) -> (r: &Buffer)
        ensures
            r@ == self.buf(),
            r.file_name() == self.file_name(),
    {
        &self.buffer
    }

    /// The absolute index of the first visible line.
    pub fn get_scroll_offset(&self) -> (r: usize)
        ensures
            r as int == self.scroll(),
    {
        self.scroll_offset
    }

    /// The height of the visible window.
    pub fn get_visible_rows(&self) -> (r: usize)
        ensures
            r as int == self.rows(),
    {
        self.visible_rows
    }

    /// The cached visible window: one (absolute index, text) row per
    /// screen row.
    pub fn get_lines(&self) -> (r: &Vec<(u16, String)>)
        ensures
            r@ == self.window(),
    {
        &self.lines
    }

    /// The width of the line-number column.
    pub fn get_num_col_width(&self) -> (r: u16)
        ensures
            r == self.gutter().0,
    {
        self.num_col.get_width()
    }

    /// Moves the cursor one column left; at column 0 this is a no-op, the
    /// position stays unchanged. A successful move becomes the new
    /// preferred column.
    pub fn move_left(&mut self)
        requires
            old(self).wf(),
        ensures
            final(self).wf(),
            moved_left(*old(self), *final(self)),
    {
        self.cursor.move_left();
    }

    /// Moves the cursor one column right, onto an existing character at
    /// most; at the last column (or on an empty line) this is a no-op,
    /// the position stays unchanged. A successful move becomes the new
    /// preferred column.
    pub fn move_right(&mut self)
        requires
            old(self).wf(),
        ensures
            final(self).wf(),
            moved_right(*old(self), *final(self)),
    {
        let pos = self.cursor.get_pos();
        let len = self.buffer.line_len(self.scroll_offset + pos.1 as usize);
        if pos.0 < u16::MAX && (pos.0 as usize) + 1 < len {
            self.cursor.move_right();
        }
    }

    /// Moves the cursor one line up: at the window's top row the viewport
    /// scrolls up instead; at the document's first line nothing happens.
    /// The landing column is the preferred column clamped to the target
    /// line. Returns whether the viewport scrolled.
    pub fn move_up(&mut self) -> (scrolled: bool)
        requires
            old(self).wf(),
        ensures
            final(self).wf(),
            moved_up(*old(self), *final(self), scrolled),
    {
        let pos = self.cursor.get_pos();
        if self.scroll_offset + (pos.1 as usize) == 0 {
            return false;
        }
        let target_abs = self.scroll_offset + pos.1 as usize - 1;
        let len = self.buffer.line_len(target_abs);
        let new_col = clamp_col(self.cursor.get_opt_col(), len);
        if pos.1 == 0 {
            self.scroll_offset = self.scroll_offset - 1;
            self.cursor.set_pos((new_col, 0));
            self.refresh();
            true
        } else {
            self.cursor.set_pos((new_col, pos.1 - 1));
            false
        }
    }

    /// Moves the cursor one line down: at the window's bottom row the
    /// viewport scrolls down instead; at the document's last line nothing
    /// happens. The landing column is the preferred column clamped to the
    /// target line. Returns whether the viewport scrolled.
    pub fn move_down(&mut self) -> (scrolled: bool)
        requires
            old(self).wf(),
        ensures
            final(self).wf(),
            moved_down(*old(self), *final(self), scrolled),
    {
        let pos = self.cursor.get_pos();
        let abs = self.scroll_offset + pos.1 as usize;
        if abs + 1 >= self.buffer.get_size() {
            return false;
        }
        let len = self.buffer.line_len(abs + 1);
        let new_col = clamp_col(self.cursor.get_opt_col(), len);
        if (pos.1 as usize) + 1 < self.visible_rows {
            self.cursor.set_pos((new_col, pos.1 + 1));
            false
        } else if self.scroll_offset + self.visible_rows <= u16::MAX as usize {
            self.scroll_offset = self.scroll_offset + 1;
            self.cursor.set_pos((new_col, pos.1));
            self.refresh();
            true
        } else {
            false
        }
    }

    /// Scrolls the viewport one line up, clamped at the document's top.
    /// The cursor keeps its window row and re-clamps its column.
    pub fn scroll_up(&mut self)
        requires
            old(self).wf(),
        ensures
            final(self).wf(),
            scrolled_up(*old(self), *final(self)),
    {
        if self.scroll_offset == 0 {
            return;
        }
        self.scroll_offset = self.scroll_offset - 1;
        let pos = self.cursor.get_pos();
        let abs = self.scroll_offset + pos.1 as usize;
        let len = self.buffer.line_len(abs);
        let new_col = clamp_col(self.cursor.get_opt_col(), len);
        self.cursor.set_pos((new_col, pos.1));
        self.refresh();
    }

    /// Scrolls the viewport one line down, clamped so its offset never
    /// passes the document's last line. The cursor keeps its window row
    /// while that row still shows a real line, else moves to the last
    /// one, and re-clamps its column.
    pub fn scroll_down(&mut self)
        requires
            old(self).wf(),
        ensures
            final(self).wf(),
            scrolled_down(*old(self), *final(self)),
    {
        let size = self.buffer.get_size();
        if self.scroll_offset + 1 >= size {
            return;
        }
        if self.scroll_offset + self.visible_rows > u16::MAX as usize {
            return;
        }
        self.scroll_offset = self.scroll_offset + 1;
        let pos = self.cursor.get_pos();
        let mut row = pos.1 as usize;
        if self.scroll_offset + row >= size {
            row = size - 1 - self.scroll_offset;
        }
        let abs = self.scroll_offset + row;
        let len = self.buffer.line_len(abs);
        let new_col = clamp_col(self.cursor.get_opt_col(), len);
        self.cursor.set_pos((new_col, row as u16));
        self.refresh();
    }

    /// Inserts `c` before the cursor and advances the cursor past it; the
    /// new column becomes the preferred column.
    pub fn insert_at_cursor(&mut self, c: char)
        requires
            old(self).wf(),
        ensures
            final(self).wf(),
            inserted(*old(self), *final(self), c),
    {
        let pos = self.cursor.get_pos();
        let abs = self.scroll_offset + pos.1 as usize;
        match self.buffer.insert(c, BufferPosition::new(pos.0 as usize, abs)) {
            Ok(()) => {},
            Err(_) => {
                proof {
                    assert(false);
                }
            },
        }
        if pos.0 < u16::MAX {
            self.cursor.set_pos((pos.0 + 1, pos.1));
            self.cursor.set_opt_col(pos.0 + 1);
        }
        self.refresh();
    }

    /// Removes the character before the cursor and moves the cursor onto
    /// the freed column; at column 0 this is a no-op. Returns whether the
    /// document changed.
    pub fn delete_before_cursor(&mut self) -> (changed: bool)
        requires
            old(self).wf(),
        ensures
            final(self).wf(),
            deleted_before(*old(self), *final(self)),
            changed == (old(self).col() > 0),
    {
        let pos = self.cursor.get_pos();
        if pos.0 == 0 {
            return false;
        }
        let abs = self.scroll_offset + pos.1 as usize;
        match self.buffer.delete(BufferPosition::new(pos.0 as usize - 1, abs)) {
            Ok(()) => {},
            Err(_) => {
                proof {
                    assert(false);
                }
            },
        }
        self.cursor.set_pos((pos.0 - 1, pos.1));
        self.cursor.set_opt_col(pos.0 - 1);
        self.refresh();
        true
    }

    /// Removes the character under the cursor; past the line's end (the
    /// insertion point) this is a no-op. The cursor stays. Returns
    /// whether the document changed.
    pub fn delete_after_cursor(&mut self) -> (changed: bool)
        requires
            old(self).wf(),
        ensures
            final(self).wf(),
            deleted_after(*old(self), *final(self)),
            changed == (old(self).col() < old(self).cur_line().len()),
    {
        let pos = self.cursor.get_pos();
        let abs = self.scroll_offset + pos.1 as usize;
        let len = self.buffer.line_len(abs);
        if pos.0 as usize >= len {
            return false;
        }
        match self.buffer.delete(BufferPosition::new(pos.0 as usize, abs)) {
            Ok(()) => {},
            Err(_) => {
                proof {
                    assert(false);
                }
            },
        }
        self.refresh();
        true
    }

    /// Splits the cursor's line at the cursor: the prefix stays, the
    /// suffix becomes the next line, and the cursor moves to the start of
    /// that line (scrolling if it was on the bottom row).
    pub fn split_at_cursor(&mut self)
        requires
            old(self).wf(),
        ensures
            final(self).wf(),
            line_split(*old(self), *final(self)),
    {
        let pos = self.cursor.get_pos();
        let abs = self.scroll_offset + pos.1 as usize;
        match self.buffer.split_line(BufferPosition::new(pos.0 as usize, abs)) {
            Ok(()) => {},
            Err(_) => {
                proof {
                    assert(false);
                }
            },
        }
        if (pos.1 as usize) + 1 < self.visible_rows {
            self.cursor.set_pos((0, pos.1 + 1));
            self.cursor.set_opt_col(0);
        } else if self.scroll_offset + self.visible_rows <= u16::MAX as usize {
            self.scroll_offset = self.scroll_offset + 1;
            self.cursor.set_pos((0, pos.1));
            self.cursor.set_opt_col(0);
        }
        self.refresh();
    }

    /// Joins the next line onto the cursor's line; at the document's last
    /// line it fails with `OutOfBounds` and changes nothing. The cursor
    /// stays.
    pub fn join_at_cursor(&mut self) -> (r: Result<(), EditError>)
        requires
            old(self).wf(),
        ensures
            final(self).wf(),
            line_joined(*old(self), *final(self), r),
    {
        let pos = self.cursor.get_pos();
        let abs = self.scroll_offset + pos.1 as usize;
        match self.buffer.join_line(abs) {
            Ok(()) => {
                self.refresh();
                Ok(())
            },
            Err(e) => Err(e),
        }
    }

    /// Deletes the selected span from the document; on success the view
    /// returns to the top and the cursor to the origin. A malformed or
    /// out-of-shape selection fails, changing nothing.
    pub fn delete_selection(&mut self, selection: BufferSelection) -> (r: Result<(), EditError>)
        requires
            old(self).wf(),
        ensures
            final(self).wf(),
            selection_deleted(*old(self), *final(self), selection, r),
    {
        match self.buffer.delete_range(selection) {
            Ok(()) => {
                self.scroll_offset = 0;
                self.cursor = Cursor::new();
                self.refresh();
                Ok(())
            },
            Err(e) => Err(e),
        }
    }

    /// Processes one abstract input command: maps it onto the operations
    /// above and reports whether the sink must redraw only the cursor or
    /// the whole window, whether the command was rejected, or whether the
    /// session should end. Pure cursor motion asks for a cursor-only
    /// redraw unless it scrolled; every document change asks for a full
    /// one.
    pub fn handle_command(&mut self, cmd: Command) -> (outcome: CommandOutcome)
        requires
            old(self).wf(),
        ensures
            final(self).wf(),
            match cmd {
                Command::MoveLeft => moved_left(*old(self), *final(self)) && outcome
                    == CommandOutcome::Continue(RenderRequest::CursorOnly),
                Command::MoveRight => moved_right(*old(self), *final(self)) && outcome
                    == CommandOutcome::Continue(RenderRequest::CursorOnly),
                Command::MoveUp => moved_up(
                    *old(self),
                    *final(self),
                    outcome == CommandOutcome::Continue(RenderRequest::FullWindow),
                ) && (outcome == CommandOutcome::Continue(RenderRequest::FullWindow) || outcome
                    == CommandOutcome::Continue(RenderRequest::CursorOnly)),
                Command::MoveDown => moved_down(
                    *old(self),
                    *final(self),
                    outcome == CommandOutcome::Continue(RenderRequest::FullWindow),
                ) && (outcome == CommandOutcome::Continue(RenderRequest::FullWindow) || outcome
                    == CommandOutcome::Continue(RenderRequest::CursorOnly)),
                Command::InsertChar(c) => inserted(*old(self), *final(self), c) && outcome
                    == CommandOutcome::Continue(RenderRequest::FullWindow),
                Command::DeleteBefore => deleted_before(*old(self), *final(self)) && outcome == (
                if old(self).col() > 0 {
                    CommandOutcome::Continue(RenderRequest::FullWindow)
                } else {
                    CommandOutcome::Continue(RenderRequest::CursorOnly)
                }),
                Command::DeleteAfter => deleted_after(*old(self), *final(self)) && outcome == (
                if old(self).col() < old(self).cur_line().len() {
                    CommandOutcome::Continue(RenderRequest::FullWindow)
                } else {
                    CommandOutcome::Continue(RenderRequest::CursorOnly)
                }),
                Command::SplitLine => line_split(*old(self), *final(self)) && outcome
                    == CommandOutcome::Continue(RenderRequest::FullWindow),
                Command::JoinLine => {
                    &&& old(self).abs_line() + 1 < old(self).buf().len() ==> line_joined(
                        *old(self),
                        *final(self),
                        Ok(()),
                    ) && outcome == CommandOutcome::Continue(RenderRequest::FullWindow)
                    &&& old(self).abs_line() + 1 >= old(self).buf().len() ==> line_joined(
                        *old(self),
                        *final(self),
                        Err(EditError::OutOfBounds),
                    ) && outcome == CommandOutcome::Rejected(EditError::OutOfBounds)
                },
                Command::DeleteRange(sel) => {
                    &&& sel.ordered() && sel.in_bounds(old(self).buf()) ==> selection_deleted(
                        *old(self),
                        *final(self),
                        sel,
                        Ok(()),
                    ) && outcome == CommandOutcome::Continue(RenderRequest::FullWindow)
                    &&& !sel.ordered() ==> selection_deleted(
                        *old(self),
                        *final(self),
                        sel,
                        Err(EditError::InvalidRange),
                    ) && outcome == CommandOutcome::Rejected(EditError::InvalidRange)
                    &&& sel.ordered() && !sel.in_bounds(old(self).buf()) ==> selection_deleted(
                        *old(self),
                        *final(self),
                        sel,
                        Err(EditError::OutOfBounds),
                    ) && outcome == CommandOutcome::Rejected(EditError::OutOfBounds)
                },
                Command::Quit => outcome == CommandOutcome::Quit && *final(self) == *old(self),
            },
    {
        match cmd {
            Command::MoveLeft => {
                self.move_left();
                CommandOutcome::Continue(RenderRequest::CursorOnly)
            },
            Command::MoveRight => {
                self.move_right();
                CommandOutcome::Continue(RenderRequest::CursorOnly)
            },
            Command::MoveUp => {
                let scrolled = self.move_up();
                if scrolled {
                    CommandOutcome::Continue(RenderRequest::FullWindow)
                } else {
                    CommandOutcome::Continue(RenderRequest::CursorOnly)
                }
            },
            Command::MoveDown => {
                let scrolled = self.move_down();
                if scrolled {
                    CommandOutcome::Continue(RenderRequest::FullWindow)
                } else {
                    CommandOutcome::Continue(RenderRequest::CursorOnly)
                }
            },
            Command::InsertChar(c) => {
                self.insert_at_cursor(c);
                CommandOutcome::Continue(RenderRequest::FullWindow)
            },
            Command::DeleteBefore => {
                let changed = self.delete_before_cursor();
                if changed {
                    CommandOutcome::Continue(RenderRequest::FullWindow)
                } else {
                    CommandOutcome::Continue(RenderRequest::CursorOnly)
                }
            },
            Command::DeleteAfter => {
                let changed = self.delete_after_cursor();
                if changed {
                    CommandOutcome::Continue(RenderRequest::FullWindow)
                } else {
                    CommandOutcome::Continue(RenderRequest::CursorOnly)
                }
            },
            Command::SplitLine => {
                self.split_at_cursor();
                CommandOutcome::Continue(RenderRequest::FullWindow)
            },
            Command::JoinLine => match self.join_at_cursor() {
                Ok(()) => CommandOutcome::Continue(RenderRequest::FullWindow),
                Err(e) => CommandOutcome::Rejected(e),
            },
            Command::DeleteRange(sel) => match self.delete_selection(sel) {
                Ok(()) => CommandOutcome::Continue(RenderRequest::FullWindow),
                Err(e) => CommandOutcome::Rejected(e),
            },
            Command::Quit => CommandOutcome::Quit,
        }
    }

    /// Recomputes the line-number column's width from the document size.
    fn update_num_col_width(&mut self)
        ensures
            final(self).num_col.spec_width() == dec_width(final(self).buf().len() as nat) + 1,
            final(self).num_col.spec_nums() == old(self).num_col.spec_nums(),
            final(self).buffer == old(self).buffer,
            final(self).cursor == old(self).cursor,
            final(self).scroll_offset == old(self).scroll_offset,
            final(self).visible_rows == old(self).visible_rows,
            final(self).lines == old(self).lines,
    {
        let w = decimal_width(self.buffer.get_size());
        self.num_col.update_width(w + 1);
    }
}

} // verus!
