//! The line store: an ordered sequence of text lines, always holding at
//! least one line, mutated in place by the structural edits (character
//! insert/delete, line split/join, ranged delete). Also the viewport
//! projection `get_n_lines`, a pure window of consecutive lines.
use vstd::prelude::*;
use vstd::string::StrSliceExecFns;

use crate::text::{char_range, chars_string, extend_chars, str_chars};
use crate::EditError;

verus! {

/// A position inside the line store: `x` is the column (0-based, an
/// insertion point may equal the line length), `y` the line index.
#[derive(Debug, Clone, Copy)]
pub struct BufferPosition {
    pub x: usize,
    pub y: usize,
}

impl BufferPosition {
    pub fn new(x: usize, y: usize) -> (p: Self)
        ensures
            p.x == x,
            p.y == y,
    {
        Self { x, y }
    }
}

/// A span of the line store to delete: from `start` to `end`, both
/// inclusive, in document order (line-major, then column).
#[derive(Debug, Clone, Copy)]
pub struct BufferSelection {
    pub start: BufferPosition,
    pub end: BufferPosition,
}

impl BufferSelection {
    pub fn new(start: BufferPosition, end: BufferPosition) -> (s: Self)
        ensures
            s.start == start,
            s.end == end,
    {
        Self { start, end }
    }

    /// The selection's start does not come after its end in document order.
    pub open spec fn ordered(self) -> bool {
        self.start.y < self.end.y || (self.start.y == self.end.y && self.start.x <= self.end.x)
    }

    /// Both endpoints address existing characters / an existing truncation
    /// point of `lines`.
    pub open spec fn in_bounds(self, lines: Seq<Seq<char>>) -> bool {
        &&& self.end.y < lines.len()
        &&& if self.start.y == self.end.y {
            self.end.x < lines[self.start.y as int].len()
        } else {
            &&& self.start.x <= lines[self.start.y as int].len()
            &&& self.end.x < lines[self.end.y as int].len()
        }
    }
}

/// The line at `idx`, or the empty line for a past-end index.
pub open spec fn window_line(lines: Seq<Seq<char>>, idx: int) -> Seq<char> {
    if 0 <= idx < lines.len() {
        lines[idx]
    } else {
        Seq::empty()
    }
}

/// `w` is the viewport window of `lines` of height `n` starting at
/// `offset`: exactly `n` rows, each carrying its absolute line index, the
/// line's text for a real row and the empty text for a past-end row (one
/// whose index is at or beyond `lines.len()`).
pub open spec fn is_window(w: Seq<(u16, String)>, lines: Seq<Seq<char>>, offset: int, n: int) -> bool {
    &&& w.len() == n
    &&& forall|i: int| 0 <= i < n ==> (#[trigger] w[i]).0 == offset + i
    &&& forall|i: int| 0 <= i < n ==> (#[trigger] w[i]).1@ == window_line(lines, offset + i)
}

/// `lines` with line `y` split at column `x` into its prefix `[0, x)` and
/// suffix `[x, len)`; every later line shifts up by one.
pub open spec fn split_lines(lines: Seq<Seq<char>>, y: int, x: int) -> Seq<Seq<char>> {
    lines.subrange(0, y) + seq![lines[y].subrange(0, x), lines[y].subrange(x, lines[y].len() as int)]
        + lines.subrange(y + 1, lines.len() as int)
}

/// `lines` with line `y + 1` appended onto line `y` and removed.
pub open spec fn join_lines(lines: Seq<Seq<char>>, y: int) -> Seq<Seq<char>> {
    lines.subrange(0, y) + seq![lines[y] + lines[y + 1]] + lines.subrange(y + 2, lines.len() as int)
}

/// `l` with the columns `[a, b)` excised.
pub open spec fn excise(l: Seq<char>, a: int, b: int) -> Seq<char> {
    l.subrange(0, a) + l.subrange(b, l.len() as int)
}

/// The line store after deleting `sel` (which must be ordered and in
/// bounds): a single-line selection excises the columns
/// `[start.x, end.x]` of that line; a cross-line selection keeps the
/// start line's prefix `[0, start.x)`, appends the end line's suffix
/// after column `end.x`, and drops every line in between.
pub open spec fn delete_range_result(lines: Seq<Seq<char>>, sel: BufferSelection) -> Seq<Seq<char>> {
    if sel.start.y == sel.end.y {
        lines.update(sel.start.y as int, excise(lines[sel.start.y as int], sel.start.x as int, sel.end.x + 1))
    } else {
        lines.subrange(0, sel.start.y as int) + seq![
            lines[sel.start.y as int].subrange(0, sel.start.x as int) + lines[sel.end.y as int].subrange(
                sel.end.x + 1,
                lines[sel.end.y as int].len() as int,
            ),
        ] + lines.subrange(sel.end.y + 1, lines.len() as int)
    }
}

/// The document: a name for the file it came from (possibly empty) and
/// the mutable sequence of its lines.
#[derive(Debug, Clone)]
pub struct Buffer {
    filename: String,
    data: Vec<String>,
}

impl View for Buffer {
    type V = Seq<Seq<char>>;

    closed spec fn view(&self) -> Seq<Seq<char>> {
        Seq::new(self.data@.len(), |i: int| self.data@[i]@)
    }
}

impl Buffer {
    /// The store never runs empty: it always holds at least one line.
    pub open spec fn wf(&self) -> bool {
        self@.len() >= 1
    }

    /// The name of the file this buffer was loaded from; empty when it
    /// was not loaded from one.
    pub closed spec fn file_name(&self) -> Seq<char> {
        self.filename@
    }

    /// An empty document: a single empty line, no file name.
    pub fn new() -> (b: Self)
        ensures
            b.wf(),
            b@ =~= seq![Seq::<char>::empty()],
            b.file_name() == Seq::<char>::empty(),
    {
        let b = Self { filename: String::new(), data: vec![String::new()] };
        proof {
            assert(b@ =~= seq![Seq::<char>::empty()]);
        }
        b
    }

    /// A document holding the given lines; an empty input is normalized
    /// to a single empty line, so the store invariant holds from the start.
    pub fn from_vec(vec: Vec<String>) -> (b: Self)
        ensures
            b.wf(),
            b.file_name() == Seq::<char>::empty(),
            vec@.len() == 0 ==> b@ =~= seq![Seq::<char>::empty()],
            vec@.len() > 0 ==> b@.len() == vec@.len() && forall|i: int|
                0 <= i < vec@.len() ==> b@[i] == vec@[i]@,
    {
        if vec.len() == 0 {
            Self::new()
        } else {
            Self { filename: String::new(), data: vec }
        }
    }

    /// Names the file the buffer's contents came from.
    pub fn set_file_name(&mut self, name: String)
        ensures
            final(self)@ == old(self)@,
            final(self).file_name() == name@,
    {
        self.filename = name;
    }

    pub fn get_file_name(&self) -> (r: String)
        ensures
            r@ == self.file_name(),
    {
        self.filename.clone()
    }

    /// The number of lines in the store.
    pub fn get_size(&self) -> (r: usize)
        ensures
            r == self@.len(),
    {
        self.data.len()
    }

    /// The length, in characters, of line `y`.
    pub fn line_len(&self, y: usize) -> (r: usize)
        requires
            y < self@.len(),
        ensures
            r == self@[y as int].len(),
    {
        self.data[y].as_str().unicode_len()
    }

    /// The lines themselves, for callers that display or compare them.
    pub fn get_lines(&self) -> (r: &Vec<String>)
        ensures
            r@.len() == self@.len(),
            forall|i: int| 0 <= i < self@.len() ==> (#[trigger] r@[i])@ == self@[i],
    {
        &self.data
    }

    /// The viewport projection: `n` rows starting at line `scroll_offset`,
    /// each paired with its absolute line index; rows past the end of the
    /// document carry the empty text. A pure function of its inputs.
    pub fn get_n_lines(&self, n: usize, scroll_offset: usize) -> (r: Vec<(u16, String)>)
        requires
            scroll_offset + n <= u16::MAX + 1,
        ensures
            is_window(r@, self@, scroll_offset as int, n as int),
    {
        let mut lines: Vec<(u16, String)> = Vec::new();
        let mut i: usize = 0;
        while i < n
            invariant
                i <= n,
                scroll_offset + n <= u16::MAX + 1,
                lines@.len() == i,
                forall|j: int| 0 <= j < i ==> (#[trigger] lines@[j]).0 == scroll_offset + j,
                forall|j: int| 0 <= j < i ==> (#[trigger] lines@[j]).1@ == window_line(self@, scroll_offset + j),
            decreases n - i,
        {
            let idx = i + scroll_offset;
            let text = if idx < self.data.len() {
                self.data[idx].clone()
            } else {
                String::new()
            };
            lines.push((idx as u16, text));
            i = i + 1;
        }
        lines
    }

    /// Inserts `c` before column `position.x` in line `position.y`; fails
    /// with `OutOfBounds`, changing nothing, exactly when the line does
    /// not exist or the column lies beyond its end.
    pub fn insert(&mut self, c: char, position: BufferPosition) -> (r: Result<(), EditError>)
        ensures
            position.y < old(self)@.len() && position.x <= old(self)@[position.y as int].len() ==> {
                &&& r is Ok
                &&& final(self)@ == old(self)@.update(
                    position.y as int,
                    old(self)@[position.y as int].insert(position.x as int, c),
                )
            },
            !(position.y < old(self)@.len() && position.x <= old(self)@[position.y as int].len()) ==> {
                &&& r == Err::<(), EditError>(EditError::OutOfBounds)
                &&& final(self)@ == old(self)@
            },
            final(self)@.len() == old(self)@.len(),
            final(self).file_name() == old(self).file_name(),
    {
        if position.y >= self.data.len() {
            return Err(EditError::OutOfBounds);
        }
        let mut chars = str_chars(self.data[position.y].as_str());
        if position.x > chars.len() {
            return Err(EditError::OutOfBounds);
        }
        chars.insert(position.x, c);
        let new_line = chars_string(chars.as_slice());
        self.data.set(position.y, new_line);
        proof {
            assert(self@ =~= old(self)@.update(
                position.y as int,
                old(self)@[position.y as int].insert(position.x as int, c),
            ));
        }
        Ok(())
    }

    /// Removes the character at column `position.x` of line `position.y`;
    /// fails with `OutOfBounds`, changing nothing, exactly when no such
    /// character exists.
    pub fn delete(&mut self, position: BufferPosition) -> (r: Result<(), EditError>)
        ensures
            position.y < old(self)@.len() && position.x < old(self)@[position.y as int].len() ==> {
                &&& r is Ok
                &&& final(self)@ == old(self)@.update(
                    position.y as int,
                    old(self)@[position.y as int].remove(position.x as int),
                )
            },
            !(position.y < old(self)@.len() && position.x < old(self)@[position.y as int].len()) ==> {
                &&& r == Err::<(), EditError>(EditError::OutOfBounds)
                &&& final(self)@ == old(self)@
            },
            final(self)@.len() == old(self)@.len(),
            final(self).file_name() == old(self).file_name(),
    {
        if position.y >= self.data.len() {
            return Err(EditError::OutOfBounds);
        }
        let mut chars = str_chars(self.data[position.y].as_str());
        if position.x >= chars.len() {
            return Err(EditError::OutOfBounds);
        }
        chars.remove(position.x);
        let new_line = chars_string(chars.as_slice());
        self.data.set(position.y, new_line);
        proof {
            assert(self@ =~= old(self)@.update(
                position.y as int,
                old(self)@[position.y as int].remove(position.x as int),
            ));
        }
        Ok(())
    }

    /// Replaces line `position.y` with its prefix `[0, position.x)` and its
    /// suffix `[position.x, len)` as two lines; all later lines shift up by
    /// one. Fails with `OutOfBounds`, changing nothing, exactly when the
    /// line does not exist or the column lies beyond its end.
    pub fn split_line(&mut self, position: BufferPosition) -> (r: Result<(), EditError>)
        ensures
            position.y < old(self)@.len() && position.x <= old(self)@[position.y as int].len() ==> {
                &&& r is Ok
                &&& final(self)@ == split_lines(old(self)@, position.y as int, position.x as int)
            },
            !(position.y < old(self)@.len() && position.x <= old(self)@[position.y as int].len()) ==> {
                &&& r == Err::<(), EditError>(EditError::OutOfBounds)
                &&& final(self)@ == old(self)@
            },
            final(self)@.len() >= old(self)@.len(),
            final(self).file_name() == old(self).file_name(),
    {
        if position.y >= self.data.len() {
            return Err(EditError::OutOfBounds);
        }
        let chars = str_chars(self.data[position.y].as_str());
        if position.x > chars.len() {
            return Err(EditError::OutOfBounds);
        }
        let prefix = char_range(chars.as_slice(), 0, position.x);
        let suffix = char_range(chars.as_slice(), position.x, chars.len());
        self.data.set(position.y, chars_string(prefix.as_slice()));
        self.data.insert(position.y + 1, chars_string(suffix.as_slice()));
        proof {
            assert(self@ =~= split_lines(old(self)@, position.y as int, position.x as int));
        }
        Ok(())
    }

    /// Appends line `line_index + 1` onto line `line_index` and removes it;
    /// the inverse of `split_line`. Fails with `OutOfBounds`, changing
    /// nothing, exactly when no line follows `line_index`.
    pub fn join_line(&mut self, line_index: usize) -> (r: Result<(), EditError>)
        ensures
            line_index + 1 < old(self)@.len() ==> {
                &&& r is Ok
                &&& final(self)@ == join_lines(old(self)@, line_index as int)
            },
            !(line_index + 1 < old(self)@.len()) ==> {
                &&& r == Err::<(), EditError>(EditError::OutOfBounds)
                &&& final(self)@ == old(self)@
            },
            old(self).wf() ==> final(self).wf(),
            final(self).file_name() == old(self).file_name(),
    {
        if line_index >= self.data.len() || line_index + 1 >= self.data.len() {
            return Err(EditError::OutOfBounds);
        }
        let next = self.data.remove(line_index + 1);
        let mut merged = self.data[line_index].clone();
        merged.append(next.as_str());
        self.data.set(line_index, merged);
        proof {
            assert(self@ =~= join_lines(old(self)@, line_index as int));
        }
        Ok(())
    }

    /// Deletes the span `selection`, both endpoints inclusive. A selection
    /// whose end precedes its start fails with `InvalidRange`; one whose
    /// endpoints exceed the buffer shape fails with `OutOfBounds`; either
    /// failure changes nothing. On success the store becomes
    /// `delete_range_result(old, selection)`: within one line the columns
    /// `[start.x, end.x]` vanish; across lines the start line keeps its
    /// prefix `[0, start.x)`, gains the end line's suffix after `end.x`,
    /// and the lines between, the end line included, vanish.
    pub fn delete_range(&mut self, selection: BufferSelection) -> (r: Result<(), EditError>)
        ensures
            !selection.ordered() ==> {
                &&& r == Err::<(), EditError>(EditError::InvalidRange)
                &&& final(self)@ == old(self)@
            },
            selection.ordered() && !selection.in_bounds(old(self)@) ==> {
                &&& r == Err::<(), EditError>(EditError::OutOfBounds)
                &&& final(self)@ == old(self)@
            },
            selection.ordered() && selection.in_bounds(old(self)@) ==> {
                &&& r is Ok
                &&& final(self)@ == delete_range_result(old(self)@, selection)
            },
            old(self).wf() ==> final(self).wf(),
            final(self).file_name() == old(self).file_name(),
    {
        let start = selection.start;
        let end = selection.end;
        if !(start.y < end.y || (start.y == end.y && start.x <= end.x)) {
            return Err(EditError::InvalidRange);
        }
        if end.y >= self.data.len() {
            return Err(EditError::OutOfBounds);
        }
        if start.y == end.y {
            let chars = str_chars(self.data[start.y].as_str());
            if end.x >= chars.len() {
                return Err(EditError::OutOfBounds);
            }
            let mut kept = char_range(chars.as_slice(), 0, start.x);
            let tail = char_range(chars.as_slice(), end.x + 1, chars.len());
            extend_chars(&mut kept, tail.as_slice());
            self.data.set(start.y, chars_string(kept.as_slice()));
            proof {
                assert(self@ =~= delete_range_result(old(self)@, selection));
            }
            Ok(())
        } else {
            let start_chars = str_chars(self.data[start.y].as_str());
            if start.x > start_chars.len() {
                return Err(EditError::OutOfBounds);
            }
            let end_chars = str_chars(self.data[end.y].as_str());
            if end.x >= end_chars.len() {
                return Err(EditError::OutOfBounds);
            }
            let mut merged = char_range(start_chars.as_slice(), 0, start.x);
            let tail = char_range(end_chars.as_slice(), end.x + 1, end_chars.len());
            extend_chars(&mut merged, tail.as_slice());
            self.data.set(start.y, chars_string(merged.as_slice()));
            let ghost mid: Seq<String> = self.data@;
            // Remove the lines start.y + 1 ..= end.y, one at a time.
            let total = end.y - start.y;
            let mut removed: usize = 0;
            proof {
                assert(self.data@ =~= mid.subrange(0, start.y + 1) + mid.subrange(
                    start.y + 1,
                    mid.len() as int,
                ));
            }
            while removed < total
                invariant
                    removed <= total,
                    total == end.y - start.y,
                    start.y < end.y < mid.len(),
                    self.file_name() == old(self).file_name(),
                    self.data@ == mid.subrange(0, start.y + 1) + mid.subrange(
                        start.y + 1 + removed,
                        mid.len() as int,
                    ),
                decreases total - removed,
            {
                self.data.remove(start.y + 1);
                removed = removed + 1;
                proof {
                    assert(self.data@ =~= mid.subrange(0, start.y + 1) + mid.subrange(
                        start.y + 1 + removed,
                        mid.len() as int,
                    ));
                }
            }
            proof {
                assert(self@ =~= delete_range_result(old(self)@, selection));
            }
            Ok(())
        }
    }
}

/// Law: inserting a character into a line and deleting it at the same
/// column restores the line exactly — `insert` and `delete` are inverses,
/// for every line and every column up to its length.
pub proof fn lemma_insert_delete_inverse(l: Seq<char>, x: int, c: char)
    requires
        0 <= x <= l.len(),
    ensures
        l.insert(x, c).remove(x) == l,
{
    assert(l.insert(x, c).remove(x) =~= l);
}

/// Law: splitting a line at any valid column and joining at the same
/// index restores the store exactly — `split_line` and `join_line` are
/// inverses.
pub proof fn lemma_split_join_inverse(lines: Seq<Seq<char>>, y: int, x: int)
    requires
        0 <= y < lines.len(),
        0 <= x <= lines[y].len(),
    ensures
        join_lines(split_lines(lines, y, x), y) == lines,
{
    let s = split_lines(lines, y, x);
    assert(s[y] + s[y + 1] =~= lines[y]);
    assert(join_lines(s, y) =~= lines);
}

/// Law: a ranged delete within one line, from column `a` to column
/// `b - 1` inclusive, yields the line with the columns `[a, b)` excised,
/// for all `0 <= a < b <= len` (an empty span has no selection: `end`
/// is inclusive).
pub proof fn lemma_delete_range_single_line(lines: Seq<Seq<char>>, y: usize, a: usize, b: usize)
    requires
        y < lines.len(),
        a < b <= lines[y as int].len(),
    ensures
        delete_range_result(
            lines,
            (BufferSelection {
                start: (BufferPosition { x: a, y }),
                end: (BufferPosition { x: (b - 1) as usize, y }),
            }),
        ) == lines.update(y as int, excise(lines[y as int], a as int, b as int)),
{
}

} // verus!
