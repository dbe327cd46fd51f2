//! Moving about: the cursor, the panels, the filter for hidden entries, and
//! the marks.

use vstd::prelude::*;
use crate::manager::PanelManager;
use crate::preview::PreviewPanel;
use crate::text::views;

verus! {

impl PanelManager {
    /// Flips the filter for hidden entries in all three panels. The left
    /// panel selects the path of the center panel again, and everything is
    /// drawn again.
    pub fn toggle_hidden(&mut self)
        requires
            old(self).wf(),
        ensures
            final(self).wf(),
            final(self)@ == old(self)@.hidden_toggled(),
    {
        self.show_hidden = !self.show_hidden;
        self.left.panel.set_hidden(self.show_hidden);
        self.center.panel.set_hidden(self.show_hidden);
        self.right.panel.set_hidden(self.show_hidden);
        let path = self.center.panel.path().clone();
        self.left.panel.select_path(&path);
        self.redraw_everything();
    }

    /// Switches the log on or off. Switched on, the log is drawn; switched
    /// off, everything is drawn again over it.
    pub fn toggle_log(&mut self)
        requires
            old(self).wf(),
        ensures
            final(self).wf(),
            final(self)@ == old(self)@.log_toggled(),
    {
        self.show_log = !self.show_log;
        if self.show_log {
            self.redraw_log();
        } else {
            self.redraw_everything();
        }
    }

    /// Selects `path` in the center panel and asks for its preview; nothing
    /// happens where `path` is selected already.
    pub fn select(&mut self, path: &String)
        requires
            old(self).wf(),
        ensures
            final(self).wf(),
            final(self)@ == old(self)@.selected(path@),
    {
        let already = match self.center.panel.selected_path() {
            Some(selected) => *selected == *path,
            None => false,
        };
        if already {
            return ;
        }
        self.center.panel.select_path(path);
        self.request_preview();
        self.redraw_center();
        self.redraw_right();
    }

    /// Moves the cursor up by `step` entries. Where it does not move,
    /// nothing changes and nothing is drawn again.
    pub fn move_up(&mut self, step: usize)
        requires
            old(self).wf(),
        ensures
            final(self).wf(),
            final(self)@ == old(self)@.moved_up(step as nat),
    {
        if self.center.panel.up(step) {
            self.request_preview();
            self.redraw_center();
            self.redraw_right();
        }
    }

    /// Moves the cursor down by `step` entries. Where it does not move,
    /// nothing changes and nothing is drawn again.
    pub fn move_down(&mut self, step: usize)
        requires
            old(self).wf(),
        ensures
            final(self).wf(),
            final(self)@ == old(self)@.moved_down(step as nat),
    {
        if self.center.panel.down(step) {
            self.request_preview();
            self.redraw_center();
            self.redraw_right();
        }
    }

    /// Moves to the left: the panels shift to the right by one. Nothing
    /// happens where the left panel has no selected entry.
    pub fn move_left(&mut self)
        requires
            old(self).wf(),
        ensures
            final(self).wf(),
            final(self)@ == old(self)@.moved_left(),
    {
        if self.left.panel.selected_path().is_none() {
            return ;
        }
        self.previous = self.center.panel.path().clone();
        self.right.update_panel(&mut self.previews, PreviewPanel::Dir(self.center.panel.duplicate()));
        self.center.update_panel(&mut self.directories, self.left.panel.duplicate());
        let parent = crate::path::parent(self.center.panel.path().as_str());
        self.point_left(parent);
        let path = self.center.panel.path().clone();
        self.left.panel.select_path(&path);
        self.unmark_left_right();
        self.redraw_panels();
    }

    /// Moves to the right into the selected directory: the panels shift to
    /// the left by one. Left and right lose their marks.
    pub fn move_into(&mut self)
        requires
            old(self).wf(),
        ensures
            final(self).wf(),
            final(self)@ == old(self)@.moved_into(),
    {
        self.previous = self.center.panel.path().clone();
        self.left.update_panel(&mut self.directories, self.center.panel.duplicate());
        let target = crate::text::owned(self.right.panel.maybe_path());
        self.point_center(target);
        self.request_preview();
        self.redraw_panels();
        self.unmark_left_right();
    }

    /// Jumps to `path`, of which `exists` says whether it exists. A jump to
    /// the path of the center panel, or to a path that does not exist,
    /// changes nothing.
    pub fn jump(&mut self, path: String, exists: bool)
        requires
            old(self).wf(),
        ensures
            final(self).wf(),
            final(self)@ == old(self)@.jumped(path@, exists),
    {
        if path == *self.center.panel.path() {
            return ;
        }
        if exists {
            self.previous = self.center.panel.path().clone();
            self.point_left(crate::path::parent(path.as_str()));
            self.left.panel.select_path(&path);
            self.point_center(Some(path));
            self.request_preview();
            self.redraw_panels();
        }
    }

    /// The paths of all marked entries: those of the left panel, then those
    /// of the center panel, then those of a directory in the right panel.
    pub fn marked_items(&self) -> (paths: Vec<String>)
        requires
            self.wf(),
        ensures
            views(paths@) == self@.marked_items(),
    {
        let mut paths = self.left.panel.marked_paths();
        let mut center = self.center.panel.marked_paths();
        let mut right = self.right.panel.marked_paths();
        let ghost a = views(paths@);
        let ghost b = views(center@);
        let ghost c = views(right@);
        paths.append(&mut center);
        assert(views(paths@) =~= a + b);
        paths.append(&mut right);
        assert(views(paths@) =~= a + b + c);
        paths
    }

    /// Takes the mark from every entry of every panel.
    pub fn unmark_all_items(&mut self)
        requires
            old(self).wf(),
        ensures
            final(self).wf(),
            final(self)@ == old(self)@.all_unmarked(),
    {
        self.center.panel.unmark_all();
        self.unmark_left_right();
    }

    /// Takes the mark from every entry of the left and right panels.
    pub fn unmark_left_right(&mut self)
        requires
            old(self).wf(),
        ensures
            final(self).wf(),
            final(self)@ == old(self)@.left_right_unmarked(),
    {
        self.left.panel.unmark_all();
        self.right.panel.unmark_all();
        self.redraw_panels();
    }

    /// Marks the selected entry and moves the cursor down by one. The
    /// center panel is dirty for the new mark.
    pub fn mark(&mut self)
        requires
            old(self).wf(),
        ensures
            final(self).wf(),
            final(self)@ == old(self)@.mark_added(),
    {
        let selected = self.center.panel.selected_path().is_some();
        self.center.panel.mark_selected_item();
        if selected {
            self.redraw.center = true;
        }
        self.move_down(1);
    }

    /// The marked paths of all panels or, where nothing is marked, the
    /// selected path alone, which is marked by this call; the center panel
    /// is dirty for the new mark. Where nothing is marked and nothing is
    /// selected, no path.
    pub fn marked_or_selected(&mut self) -> (paths: Vec<String>)
        requires
            old(self).wf(),
        ensures
            final(self).wf(),
            final(self)@ == old(self)@.after_choice(),
            views(paths@) == old(self)@.chosen(),
    {
        let files = self.marked_items();
        if files.len() == 0 {
            self.center.panel.mark_selected_item();
            let mut paths: Vec<String> = Vec::new();
            proof {
                crate::directory::lemma_mark_keeps_selection(old(self).center.panel@);
            }
            match self.center.panel.selected_path() {
                Some(path) => {
                    paths.push(path.clone());
                    assert(views(paths@) =~= seq![path@]);
                    self.redraw.center = true;
                },
                None => {
                    assert(views(paths@) =~= Seq::empty());
                },
            }
            paths
        } else {
            files
        }
    }
}

} // verus!
