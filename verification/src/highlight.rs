//! The highlight region: which rendered row of the directory listing is
//! selected, together with the rectangle painted over it.

use vstd::prelude::*;

verus! {

/// The rectangular region that marks the selected row of the listing.
///
/// The row offset `y` never goes below the top of the list; moving down is
/// unclamped against the listing length, so the highlight may sit past the
/// last real entry. The width is refreshed each render pass from the
/// terminal width; the height stays at one row.
#[derive(Clone, Copy, Debug)]
pub struct Highlight {
    pub x: u16,
    pub y: u16,
    pub width: u16,
    pub height: u16,
}

/// Moving the highlight one row up, stopping at the top of the list.
pub open spec fn spec_move_up(h: Highlight) -> Highlight {
    if h.y > 0 {
        Highlight { x: h.x, y: (h.y - 1) as u16, width: h.width, height: h.height }
    } else {
        h
    }
}

/// Moving the highlight one row down, without a clamp against the listing
/// length. Meaningful only while the row is below the range limit of its
/// type; the executable operation excludes the limit.
pub open spec fn spec_move_down(h: Highlight) -> Highlight {
    Highlight { x: h.x, y: (h.y + 1) as u16, width: h.width, height: h.height }
}

/// Moving up at the top of the list is a no-op, and moving down from any row
/// below the range limit lands exactly one row further down.
pub proof fn lemma_highlight_moves(h: Highlight)
    ensures
        h.y == 0 ==> spec_move_up(h) == h,
        h.y > 0 ==> spec_move_up(h).y == h.y - 1,
        h.y < u16::MAX ==> spec_move_down(h).y == h.y + 1,
{
}

impl Highlight {
    /// A fresh highlight: top of the list, one row tall, no width yet.
    pub fn new() -> (r: Highlight)
        ensures
            r.x == 0,
            r.y == 0,
            r.width == 0,
            r.height == 1,
    {
        Highlight { x: 0, y: 0, width: 0, height: 1 }
    }

    /// Moves the highlight one row up, stopping at the top of the list.
    pub fn move_up(&mut self)
        ensures
            *final(self) == spec_move_up(*old(self)),
            old(self).y > 0 ==> final(self).y == old(self).y - 1,
            old(self).y == 0 ==> final(self).y == 0,
            final(self).x == old(self).x,
            final(self).width == old(self).width,
            final(self).height == old(self).height,
    {
        if self.y > 0 {
            self.y = self.y - 1;
        }
    }

    /// Moves the highlight one row down, without an upper clamp against the
    /// listing length. The row cannot grow past the range of its type.
    pub fn move_down(&mut self)
        requires
            old(self).y < u16::MAX,
        ensures
            *final(self) == spec_move_down(*old(self)),
            final(self).y == old(self).y + 1,
            final(self).x == old(self).x,
            final(self).width == old(self).width,
            final(self).height == old(self).height,
    {
        self.y = self.y + 1;
    }

    /// Refreshes the painted width to the current terminal width.
    pub fn set_width(&mut self, width: u16)
        ensures
            final(self).width == width,
            final(self).x == old(self).x,
            final(self).y == old(self).y,
            final(self).height == old(self).height,
    {
        self.width = width;
    }
}

} // verus!
