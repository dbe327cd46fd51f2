//! The redraw tracker: one dirty flag for each region of the screen.

use vstd::prelude::*;

verus! {

/// The regions of the screen that still have to be drawn again.
#[derive(Clone, Copy, Debug, PartialEq, Eq, Structural)]
pub struct Redraw {
    pub left: bool,
    pub center: bool,
    pub right: bool,
    pub console: bool,
    pub log: bool,
    pub header: bool,
    pub footer: bool,
}

impl Redraw {
    /// No region is dirty.
    pub open spec fn clean() -> Redraw {
        Redraw {
            left: false,
            center: false,
            right: false,
            console: false,
            log: false,
            header: false,
            footer: false,
        }
    }

    /// Every region is dirty.
    pub open spec fn all() -> Redraw {
        Redraw {
            left: true,
            center: true,
            right: true,
            console: true,
            log: true,
            header: true,
            footer: true,
        }
    }

    /// Whether some region is dirty.
    pub open spec fn is_dirty(self) -> bool {
        self.left || self.center || self.right || self.console || self.header || self.footer
            || self.log
    }

    /// Whether every region that `other` marks is marked here too.
    pub open spec fn covers(self, other: Redraw) -> bool {
        &&& other.left ==> self.left
        &&& other.center ==> self.center
        &&& other.right ==> self.right
        &&& other.console ==> self.console
        &&& other.log ==> self.log
        &&& other.header ==> self.header
        &&& other.footer ==> self.footer
    }

    /// The regions dirty in `self` or in `other`.
    pub open spec fn join(self, other: Redraw) -> Redraw {
        Redraw {
            left: self.left || other.left,
            center: self.center || other.center,
            right: self.right || other.right,
            console: self.console || other.console,
            log: self.log || other.log,
            header: self.header || other.header,
            footer: self.footer || other.footer,
        }
    }

    /// The header alone.
    pub open spec fn header_only() -> Redraw {
        Redraw { header: true, ..Redraw::clean() }
    }

    /// The footer alone.
    pub open spec fn footer_only() -> Redraw {
        Redraw { footer: true, ..Redraw::clean() }
    }

    /// The three panels with header and footer.
    pub open spec fn panels() -> Redraw {
        Redraw { left: true, center: true, right: true, header: true, footer: true, ..Redraw::clean() }
    }

    /// The center panel alone.
    pub open spec fn center_only() -> Redraw {
        Redraw { center: true, ..Redraw::clean() }
    }

    /// What a change in the left panel dirties.
    pub open spec fn left_change() -> Redraw {
        Redraw { left: true, log: true, ..Redraw::clean() }
    }

    /// What a change in the center panel dirties.
    pub open spec fn center_change() -> Redraw {
        Redraw { center: true, footer: true, header: true, log: true, ..Redraw::clean() }
    }

    /// What a change in the right panel dirties.
    pub open spec fn right_change() -> Redraw {
        Redraw { right: true, log: true, ..Redraw::clean() }
    }

    /// The console overlay alone.
    pub open spec fn console_only() -> Redraw {
        Redraw { console: true, ..Redraw::clean() }
    }

    /// The log region alone.
    pub open spec fn log_only() -> Redraw {
        Redraw { log: true, ..Redraw::clean() }
    }

    /// Everything but the log region.
    pub open spec fn everything() -> Redraw {
        Redraw { log: false, ..Redraw::all() }
    }

    /// A tracker with no dirty region.
    pub fn new() -> (r: Redraw)
        ensures
            r == Redraw::clean(),
    {
        Redraw {
            left: false,
            center: false,
            right: false,
            console: false,
            log: false,
            header: false,
            footer: false,
        }
    }

    /// Whether some region is dirty.
    pub fn any(&self) -> (dirty: bool)
        ensures
            dirty == self.is_dirty(),
    {
        self.left || self.center || self.right || self.console || self.header || self.footer
            || self.log
    }

    /// Marks every region that `other` marks.
    pub fn mark(&mut self, other: Redraw)
        ensures
            *final(self) == old(self).join(other),
    {
        self.left = self.left || other.left;
        self.center = self.center || other.center;
        self.right = self.right || other.right;
        self.console = self.console || other.console;
        self.log = self.log || other.log;
        self.header = self.header || other.header;
        self.footer = self.footer || other.footer;
    }
}

/// Marking regions never clears one: the result covers both what was dirty
/// and what was marked.
pub proof fn lemma_join_covers(a: Redraw, b: Redraw)
    ensures
        a.join(b).covers(a),
        a.join(b).covers(b),
        a.join(b).is_dirty() == (a.is_dirty() || b.is_dirty()),
{
}

} // verus!
