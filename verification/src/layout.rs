//! The Miller-columns layout: where the three panels, the header and the
//! footer lie on a terminal of a given size.

use vstd::prelude::*;

verus! {

/// A half-open range of columns or rows.
#[derive(Clone, Copy, Debug, PartialEq, Eq, Structural)]
pub struct Span {
    pub start: u16,
    pub end: u16,
}

impl Span {
    /// The range is not reversed.
    pub open spec fn valid(self) -> bool {
        self.start <= self.end
    }

    /// The number of cells in the range.
    pub open spec fn spec_len(self) -> int {
        self.end - self.start
    }

    /// The number of cells in the range.
    pub fn len(&self) -> (n: u16)
        ensures
            n == if self.valid() {
                self.spec_len()
            } else {
                0
            },
    {
        if self.start <= self.end {
            self.end - self.start
        } else {
            0
        }
    }

    /// The range without its last `rows` cells, as far as it has them.
    pub open spec fn shortened(self, rows: int) -> Span {
        Span { start: self.start, end: if self.end >= rows { (self.end - rows) as u16 } else { 0 } }
    }
}

/// The layout of the screen.
#[derive(Clone, Copy, Debug, PartialEq, Eq, Structural)]
pub struct MillerColumns {
    pub left_x_range: Span,
    pub center_x_range: Span,
    pub right_x_range: Span,
    pub y_range: Span,
    pub width: u16,
    pub footer: u16,
}

impl MillerColumns {
    /// The layout of a terminal `width` columns wide and `height` rows high:
    /// the left panel takes an eighth of the width, the center panel reaches
    /// to the middle, the right panel takes the rest; the first row is the
    /// header, the last row the footer, the panels lie between them.
    pub open spec fn of_size(width: u16, height: u16) -> MillerColumns {
        MillerColumns {
            left_x_range: Span { start: 0, end: width / 8 },
            center_x_range: Span { start: width / 8, end: width / 2 },
            right_x_range: Span { start: width / 2, end: width },
            y_range: Span { start: 1, end: if height >= 2 { (height - 1) as u16 } else { 1 } },
            width,
            footer: if height >= 1 { (height - 1) as u16 } else { 0 },
        }
    }

    /// The three column ranges follow each other without a gap, from the
    /// first column to the last, and the rows of the panels are not reversed.
    pub open spec fn valid(self) -> bool {
        &&& self.left_x_range.start == 0
        &&& self.left_x_range.valid()
        &&& self.left_x_range.end == self.center_x_range.start
        &&& self.center_x_range.valid()
        &&& self.center_x_range.end == self.right_x_range.start
        &&& self.right_x_range.valid()
        &&& self.right_x_range.end == self.width
        &&& self.y_range.valid()
    }

    /// The number of rows that the panels have.
    pub open spec fn rows(self) -> nat {
        if self.y_range.valid() {
            self.y_range.spec_len() as nat
        } else {
            0
        }
    }

    /// The layout for a terminal of the given `(width, height)`.
    pub fn from_size(size: (u16, u16)) -> (layout: MillerColumns)
        ensures
            layout == MillerColumns::of_size(size.0, size.1),
            layout.valid(),
    {
        let (width, height) = size;
        MillerColumns {
            left_x_range: Span { start: 0, end: width / 8 },
            center_x_range: Span { start: width / 8, end: width / 2 },
            right_x_range: Span { start: width / 2, end: width },
            y_range: Span { start: 1, end: if height >= 2 { height - 1 } else { 1 } },
            width,
            footer: if height >= 1 { height - 1 } else { 0 },
        }
    }

    /// The width of the terminal.
    pub fn width(&self) -> (w: u16)
        ensures
            w == self.width,
    {
        self.width
    }

    /// The number of rows that the panels have.
    pub fn height(&self) -> (h: u16)
        ensures
            h == self.rows(),
    {
        self.y_range.len()
    }

    /// The row of the footer.
    pub fn footer(&self) -> (row: u16)
        ensures
            row == self.footer,
    {
        self.footer
    }

    /// The rows left to the panels when the log takes `rows` of them.
    pub fn rows_above_log(&self, rows: usize) -> (span: Span)
        ensures
            span == self.y_range.shortened(rows as int),
    {
        let end: u16 = if rows <= self.y_range.end as usize {
            self.y_range.end - (rows as u16)
        } else {
            0
        };
        Span { start: self.y_range.start, end }
    }
}

/// Every size gives a valid layout whose columns cover the whole width.
pub proof fn lemma_layout_valid(width: u16, height: u16)
    ensures
        MillerColumns::of_size(width, height).valid(),
        MillerColumns::of_size(width, height).left_x_range.spec_len()
            + MillerColumns::of_size(width, height).center_x_range.spec_len()
            + MillerColumns::of_size(width, height).right_x_range.spec_len() == width,
{
}

} // verus!
