//! The preview of the selected entry: a directory listing, the text of a
//! file, or nothing.

use vstd::prelude::*;
use crate::directory::DirPanel;
use crate::directory::PanelModel;
use crate::panel::Panel;
use crate::text::opt_ref_view;

verus! {

/// What a preview is.
pub enum PreviewModel {
    Dir(PanelModel),
    File { path: Seq<char>, text: Seq<char> },
    Nothing,
}

impl PreviewModel {
    /// The path that the preview shows, if it shows one.
    pub open spec fn maybe_path(self) -> Option<Seq<char>> {
        match self {
            PreviewModel::Dir(panel) => Some(panel.path),
            PreviewModel::File { path, .. } => Some(path),
            PreviewModel::Nothing => None,
        }
    }

    /// The preview after the filter for hidden entries has been set.
    pub open spec fn with_hidden(self, show: bool) -> PreviewModel {
        match self {
            PreviewModel::Dir(panel) => PreviewModel::Dir(panel.with_hidden(show)),
            _ => self,
        }
    }

    /// The preview without any mark.
    pub open spec fn unmarked(self) -> PreviewModel {
        match self {
            PreviewModel::Dir(panel) => PreviewModel::Dir(panel.unmarked()),
            _ => self,
        }
    }

    /// The paths of the marked entries of a directory preview; none of any
    /// other preview.
    pub open spec fn marked_paths(self) -> Seq<Seq<char>> {
        match self {
            PreviewModel::Dir(panel) => panel.marked_paths(),
            _ => Seq::empty(),
        }
    }
}

/// The preview of the selected entry.
#[derive(Debug, PartialEq, Eq)]
pub enum PreviewPanel {
    /// The listing of a directory.
    Dir(DirPanel),
    /// The text of a file.
    File { path: String, text: String },
    /// Nothing to show: no entry is selected, or it cannot be read.
    Nothing,
}

impl View for PreviewPanel {
    type V = PreviewModel;

    open spec fn view(&self) -> PreviewModel {
        match self {
            PreviewPanel::Dir(panel) => PreviewModel::Dir(panel@),
            PreviewPanel::File { path, text } => PreviewModel::File { path: path@, text: text@ },
            PreviewPanel::Nothing => PreviewModel::Nothing,
        }
    }
}

impl PreviewPanel {
    /// A directory preview holds a well-formed listing.
    pub open spec fn wf(&self) -> bool {
        match self {
            PreviewPanel::Dir(panel) => panel.wf(),
            _ => true,
        }
    }

    /// The path that the preview shows, if it shows one.
    pub fn maybe_path(&self) -> (r: Option<&String>)
        ensures
            opt_ref_view(r) == self@.maybe_path(),
    {
        match self {
            PreviewPanel::Dir(panel) => Some(panel.path()),
            PreviewPanel::File { path, .. } => Some(path),
            PreviewPanel::Nothing => None,
        }
    }

    /// Sets whether a directory preview shows hidden entries.
    pub fn set_hidden(&mut self, show_hidden: bool)
        requires
            old(self).wf(),
        ensures
            final(self).wf(),
            final(self)@ == old(self)@.with_hidden(show_hidden),
    {
        match self {
            PreviewPanel::Dir(panel) => {
                panel.set_hidden(show_hidden);
            },
            _ => {},
        }
    }

    /// Takes the mark from every entry of a directory preview.
    pub fn unmark_all(&mut self)
        requires
            old(self).wf(),
        ensures
            final(self).wf(),
            final(self)@ == old(self)@.unmarked(),
    {
        match self {
            PreviewPanel::Dir(panel) => {
                panel.unmark_all();
            },
            _ => {},
        }
    }

    /// The paths of the marked entries of a directory preview.
    pub fn marked_paths(&self) -> (r: Vec<String>)
        requires
            self.wf(),
        ensures
            crate::text::views(r@) == self@.marked_paths(),
    {
        match self {
            PreviewPanel::Dir(panel) => panel.marked_paths(),
            _ => {
                let r: Vec<String> = Vec::new();
                assert(crate::text::views(r@) =~= Seq::empty());
                r
            },
        }
    }

    /// A copy of the preview.
    pub fn duplicate(&self) -> (p: PreviewPanel)
        requires
            self.wf(),
        ensures
            p.wf(),
            p@ == self@,
    {
        match self {
            PreviewPanel::Dir(panel) => PreviewPanel::Dir(panel.duplicate()),
            PreviewPanel::File { path, text } => PreviewPanel::File {
                path: path.clone(),
                text: text.clone(),
            },
            PreviewPanel::Nothing => PreviewPanel::Nothing,
        }
    }
}

impl Panel for PreviewPanel {
    open spec fn valid(&self) -> bool {
        self.wf()
    }

    /// Until a preview is loaded, nothing is shown.
    open spec fn blank(path: Option<Seq<char>>) -> PreviewModel {
        PreviewModel::Nothing
    }

    open spec fn location(model: PreviewModel) -> Option<Seq<char>> {
        model.maybe_path()
    }

    fn placeholder(path: Option<&String>) -> (p: PreviewPanel) {
        PreviewPanel::Nothing
    }

    fn copy(&self) -> (p: PreviewPanel) {
        self.duplicate()
    }

    fn shown_path(&self) -> (r: Option<String>) {
        match self.maybe_path() {
            Some(path) => Some(path.clone()),
            None => None,
        }
    }
}

} // verus!
