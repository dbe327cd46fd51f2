//! What a slot needs of the panel that it holds.

use vstd::prelude::*;
use crate::text::opt_ref_view;
use crate::text::opt_view;

verus! {

/// A panel that a slot can hold: it has a model, a placeholder that is shown
/// until a load completes, and it can be copied.
pub trait Panel: View + Sized {
    /// The panel's own invariant.
    spec fn valid(&self) -> bool;

    /// The model of the placeholder for `path`.
    spec fn blank(path: Option<Seq<char>>) -> Self::V;

    /// The path that a panel with the model `model` shows.
    spec fn location(model: Self::V) -> Option<Seq<char>>;

    /// The placeholder shown for `path` until its load completes.
    fn placeholder(path: Option<&String>) -> (p: Self)
        ensures
            p.valid(),
            p@ == Self::blank(opt_ref_view(path)),
    ;

    /// A copy of the panel.
    fn copy(&self) -> (p: Self)
        requires
            self.valid(),
        ensures
            p.valid(),
            p@ == self@,
    ;

    /// The path that the panel shows.
    fn shown_path(&self) -> (r: Option<String>)
        requires
            self.valid(),
        ensures
            opt_view(r) == Self::location(self@),
    ;
}

} // verus!
