//! The cursor: a (column, row) position in viewport-relative coordinates,
//! the previous position (kept for differential redraw), and the preferred
//! column that vertical moves try to restore when crossing lines of
//! unequal length.
use vstd::prelude::*;

verus! {

#[derive(Debug, Clone, Copy)]
pub struct Cursor {
    pos: (u16, u16),
    prev_pos: (u16, u16),
    opt_col: u16,
}

impl Cursor {
    /// The current (column, row) position.
    pub closed spec fn spec_pos(&self) -> (u16, u16) {
        self.pos
    }

    /// The position before the last move.
    pub closed spec fn spec_prev_pos(&self) -> (u16, u16) {
        self.prev_pos
    }

    /// The preferred column remembered across vertical moves.
    pub closed spec fn spec_opt_col(&self) -> u16 {
        self.opt_col
    }

    pub fn new() -> (c: Self)
        ensures
            c.spec_pos() == (0u16, 0u16),
            c.spec_prev_pos() == (0u16, 0u16),
            c.spec_opt_col() == 0u16,
    {
        Self { pos: (0, 0), prev_pos: (0, 0), opt_col: 0 }
    }

    pub fn get_pos(&self) -> (r: (u16, u16))
        ensures
            r == self.spec_pos(),
    {
        self.pos
    }

    pub fn get_prev_pos(&self) -> (r: (u16, u16))
        ensures
            r == self.spec_prev_pos(),
    {
        self.prev_pos
    }

    pub fn get_opt_col(&self) -> (r: u16)
        ensures
            r == self.spec_opt_col(),
    {
        self.opt_col
    }

    pub fn set_opt_col(&mut self, opt_col: u16)
        ensures
            final(self).spec_opt_col() == opt_col,
            final(self).spec_pos() == old(self).spec_pos(),
            final(self).spec_prev_pos() == old(self).spec_prev_pos(),
    {
        self.opt_col = opt_col
    }

    /// One raw step up: decrements the row unless it is already 0, in
    /// which case nothing changes.
    pub fn move_up(&mut self)
        ensures
            old(self).spec_pos().1 > 0 ==> {
                &&& final(self).spec_pos() == (old(self).spec_pos().0, (old(self).spec_pos().1 - 1) as u16)
                &&& final(self).spec_prev_pos() == old(self).spec_pos()
            },
            old(self).spec_pos().1 == 0 ==> *final(self) == *old(self),
            final(self).spec_opt_col() == old(self).spec_opt_col(),
    {
        if self.pos.1 > 0 {
            self.prev_pos = self.pos;
            self.pos.1 = self.pos.1 - 1;
        }
    }

    /// One raw step down: increments the row. The caller keeps the row
    /// within the window; the count stays representable.
    pub fn move_down(&mut self)
        requires
            old(self).spec_pos().1 < u16::MAX,
        ensures
            final(self).spec_pos() == (old(self).spec_pos().0, (old(self).spec_pos().1 + 1) as u16),
            final(self).spec_prev_pos() == old(self).spec_pos(),
            final(self).spec_opt_col() == old(self).spec_opt_col(),
    {
        self.prev_pos = self.pos;
        self.pos.1 = self.pos.1 + 1;
    }

    /// One raw step right: increments the column and remembers it as the
    /// preferred column. The caller keeps the column within the line.
    pub fn move_right(&mut self)
        requires
            old(self).spec_pos().0 < u16::MAX,
        ensures
            final(self).spec_pos() == ((old(self).spec_pos().0 + 1) as u16, old(self).spec_pos().1),
            final(self).spec_prev_pos() == old(self).spec_pos(),
            final(self).spec_opt_col() == final(self).spec_pos().0,
    {
        self.prev_pos = self.pos;
        self.pos.0 = self.pos.0 + 1;
        self.opt_col = self.pos.0;
    }

    /// One step left: decrements the column and remembers it as the
    /// preferred column; at column 0 nothing changes at all.
    pub fn move_left(&mut self)
        ensures
            old(self).spec_pos().0 > 0 ==> {
                &&& final(self).spec_pos() == ((old(self).spec_pos().0 - 1) as u16, old(self).spec_pos().1)
                &&& final(self).spec_prev_pos() == old(self).spec_pos()
                &&& final(self).spec_opt_col() == final(self).spec_pos().0
            },
            old(self).spec_pos().0 == 0 ==> *final(self) == *old(self),
    {
        if self.pos.0 > 0 {
            self.prev_pos = self.pos;
            self.pos.0 = self.pos.0 - 1;
            self.opt_col = self.pos.0;
        }
    }

    pub fn set_pos(&mut self, pos: (u16, u16))
        ensures
            final(self).spec_pos() == pos,
            final(self).spec_prev_pos() == old(self).spec_pos(),
            final(self).spec_opt_col() == old(self).spec_opt_col(),
    {
        self.prev_pos = self.pos;
        self.pos = pos
    }

    /// Sets the column alone; only the previous column is remembered.
    pub fn set_w(&mut self, w: u16)
        ensures
            final(self).spec_pos() == (w, old(self).spec_pos().1),
            final(self).spec_prev_pos() == (old(self).spec_pos().0, old(self).spec_prev_pos().1),
            final(self).spec_opt_col() == old(self).spec_opt_col(),
    {
        self.prev_pos.0 = self.pos.0;
        self.pos.0 = w
    }

    /// Sets the row alone; only the previous row is remembered.
    pub fn set_h(&mut self, h: u16)
        ensures
            final(self).spec_pos() == (old(self).spec_pos().0, h),
            final(self).spec_prev_pos() == (old(self).spec_prev_pos().0, old(self).spec_pos().1),
            final(self).spec_opt_col() == old(self).spec_opt_col(),
    {
        self.prev_pos.1 = self.pos.1;
        self.pos.1 = h
    }
}

} // verus!
