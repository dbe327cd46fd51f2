//! The panel manager: three slots in Miller columns, the mode, the clipboard
//! and the redraw tracker, and what moving about does to them.

use vstd::prelude::*;
use crate::directory::DirPanel;
use crate::directory::PanelModel;
use crate::layout::MillerColumns;
use crate::mode::opt_clipboard_view;
use crate::mode::Clipboard;
use crate::mode::ClipboardModel;
use crate::mode::Mode;
use crate::mode::ModeModel;
use crate::path::parent_of;
use crate::preview::PreviewModel;
use crate::preview::PreviewPanel;
use crate::redraw::Redraw;
use crate::session::effect_views;
use crate::session::Effect;
use crate::session::EffectModel;
use crate::session::Pending;
use crate::session::PendingModel;
use crate::slot::cached;
use crate::slot::pointed;
use crate::slot::ManagedPanel;
use crate::slot::PanelCache;
use crate::slot::Request;
use crate::slot::RequestModel;
use crate::slot::SlotModel;
use crate::slot::StateModel;
use crate::text::owned;

verus! {

/// What the manager is.
pub struct ManagerModel {
    pub left: SlotModel<PanelModel>,
    pub center: SlotModel<PanelModel>,
    pub right: SlotModel<PreviewModel>,
    pub directories: Map<Seq<char>, PanelModel>,
    pub previews: Map<Seq<char>, PreviewModel>,
    pub mode: ModeModel,
    pub clipboard: Option<ClipboardModel>,
    pub layout: MillerColumns,
    pub show_hidden: bool,
    pub show_log: bool,
    pub redraw: Redraw,
    pub previous: Seq<char>,
    pub pre_console_path: Seq<char>,
    pub trash_dir: Seq<char>,
    pub pending: PendingModel,
    pub effects: Seq<EffectModel>,
}

impl ManagerModel {
    /// The manager with the regions of `regions` marked dirty as well.
    pub open spec fn marking(self, regions: Redraw) -> ManagerModel {
        ManagerModel { redraw: self.redraw.join(regions), ..self }
    }

    /// The manager with one more effect left to be carried out.
    pub open spec fn with_effect(self, effect: EffectModel) -> ManagerModel {
        ManagerModel { effects: self.effects.push(effect), ..self }
    }

    /// The manager with a request to the directory worker, if there is one.
    pub open spec fn with_directory_request(self, request: Option<RequestModel>) -> ManagerModel {
        match request {
            Some(r) => self.with_effect(EffectModel::LoadDirectory(r)),
            None => self,
        }
    }

    /// The manager with a request to the preview worker, if there is one.
    pub open spec fn with_preview_request(self, request: Option<RequestModel>) -> ManagerModel {
        match request {
            Some(r) => self.with_effect(EffectModel::LoadPreview(r)),
            None => self,
        }
    }

    /// The manager after the left slot has been pointed at `path`.
    pub open spec fn left_pointed(self, path: Option<Seq<char>>) -> ManagerModel {
        let left = pointed::<DirPanel>(self.left, self.directories, path);
        ManagerModel { left, ..self }.with_directory_request(left.request(false))
    }

    /// The manager after the center slot has been pointed at `path`.
    pub open spec fn center_pointed(self, path: Option<Seq<char>>) -> ManagerModel {
        let center = pointed::<DirPanel>(self.center, self.directories, path);
        ManagerModel { center, ..self }.with_directory_request(center.request(false))
    }

    /// The manager after the right slot has been pointed at `path`, at once.
    pub open spec fn right_pointed(self, path: Option<Seq<char>>) -> ManagerModel {
        let right = pointed::<PreviewPanel>(self.right, self.previews, path);
        ManagerModel { right, ..self }.with_preview_request(right.request(false))
    }

    /// The manager after the preview of the selected entry has been asked
    /// for: the right slot points at the selected entry, and its request is
    /// a delayed one.
    pub open spec fn preview_requested(self) -> ManagerModel {
        let right = pointed::<PreviewPanel>(
            self.right,
            self.previews,
            self.center.panel.selected_path(),
        );
        ManagerModel { right, ..self }.with_preview_request(right.request(true))
    }

    /// The manager with `panel` as the panel of the center slot.
    pub open spec fn center_showing(self, panel: PanelModel) -> ManagerModel {
        ManagerModel { center: self.center.showing(panel), ..self }
    }

    /// The manager with `panel` as the panel of the left slot.
    pub open spec fn left_showing(self, panel: PanelModel) -> ManagerModel {
        ManagerModel { left: self.left.showing(panel), ..self }
    }

    /// The manager with `panel` as the panel of the right slot.
    pub open spec fn right_showing(self, panel: PreviewModel) -> ManagerModel {
        ManagerModel { right: self.right.showing(panel), ..self }
    }

    /// The manager after a change of the selection in the center: the
    /// preview is asked for, and center and right are dirty.
    pub open spec fn selection_changed(self) -> ManagerModel {
        self.preview_requested().marking(Redraw::center_change()).marking(Redraw::right_change())
    }

    /// The manager at its start in the directory `current`.
    pub open spec fn initial(
        size: (u16, u16),
        current: Seq<char>,
        trash_dir: Seq<char>,
        directories: Map<Seq<char>, PanelModel>,
        previews: Map<Seq<char>, PreviewModel>,
    ) -> ManagerModel {
        let fresh = ManagerModel {
            left: SlotModel {
                panel: PanelModel::blank(Seq::empty()),
                state: StateModel { path: None, generation: 0 },
                frozen: false,
            },
            center: SlotModel {
                panel: PanelModel::blank(Seq::empty()),
                state: StateModel { path: None, generation: 0 },
                frozen: false,
            },
            right: SlotModel {
                panel: PreviewModel::Nothing,
                state: StateModel { path: None, generation: 0 },
                frozen: false,
            },
            directories,
            previews,
            mode: ModeModel::Normal,
            clipboard: None,
            layout: MillerColumns::of_size(size.0, size.1),
            show_hidden: false,
            show_log: false,
            redraw: Redraw::all(),
            previous: current,
            pre_console_path: current,
            trash_dir,
            pending: PendingModel::Idle,
            effects: Seq::empty(),
        };
        let pointed = fresh.left_pointed(parent_of(current)).center_pointed(Some(current));
        let previewed = pointed.right_pointed(pointed.center.panel.selected_path());
        previewed.left_showing(previewed.left.panel.with_selected(previewed.center.panel.path))
    }

    /// The manager after the filter for hidden entries has been flipped in
    /// all three panels; the left panel selects the path of the center
    /// panel again.
    pub open spec fn hidden_toggled(self) -> ManagerModel {
        let show = !self.show_hidden;
        let center = self.center.panel.with_hidden(show);
        ManagerModel { show_hidden: show, ..self }.left_showing(
            self.left.panel.with_hidden(show).with_selected(center.path),
        ).center_showing(center).right_showing(self.right.panel.with_hidden(show)).marking(
            Redraw::everything(),
        )
    }

    /// The manager after the log has been switched on or off.
    pub open spec fn log_toggled(self) -> ManagerModel {
        let shown = ManagerModel { show_log: !self.show_log, ..self };
        if shown.show_log {
            shown.marking(Redraw::log_only())
        } else {
            shown.marking(Redraw::everything())
        }
    }

    /// The manager after `path` has been selected in the center.
    pub open spec fn selected(self, path: Seq<char>) -> ManagerModel {
        if self.center.panel.selected_path() == Some(path) {
            self
        } else {
            self.center_showing(self.center.panel.with_selected(path)).selection_changed()
        }
    }

    /// The manager after the cursor has moved up by `step` entries.
    pub open spec fn moved_up(self, step: nat) -> ManagerModel {
        if self.center.panel.moved_up(step) == self.center.panel {
            self
        } else {
            self.center_showing(self.center.panel.moved_up(step)).selection_changed()
        }
    }

    /// The manager after the cursor has moved down by `step` entries.
    pub open spec fn moved_down(self, step: nat) -> ManagerModel {
        if self.center.panel.moved_down(step) == self.center.panel {
            self
        } else {
            self.center_showing(self.center.panel.moved_down(step)).selection_changed()
        }
    }

    /// The manager without marks in the left and right panels.
    pub open spec fn left_right_unmarked(self) -> ManagerModel {
        self.left_showing(self.left.panel.unmarked()).right_showing(
            self.right.panel.unmarked(),
        ).marking(Redraw::panels())
    }

    /// The manager without marks in any panel.
    pub open spec fn all_unmarked(self) -> ManagerModel {
        self.center_showing(self.center.panel.unmarked()).left_right_unmarked()
    }

    /// The paths that are marked: those of the left panel, then those of the
    /// center panel, then those of a directory in the right panel.
    pub open spec fn marked_items(self) -> Seq<Seq<char>> {
        self.left.panel.marked_paths() + self.center.panel.marked_paths()
            + self.right.panel.marked_paths()
    }

    /// The paths that a command works on: the marked paths, or the selected
    /// path where nothing is marked.
    pub open spec fn chosen(self) -> Seq<Seq<char>> {
        if self.marked_items().len() > 0 {
            self.marked_items()
        } else {
            match self.center.panel.selected_path() {
                Some(path) => seq![path],
                None => Seq::empty(),
            }
        }
    }

    /// The manager after the paths for a command have been chosen: where
    /// nothing was marked, the selected entry is marked now, and the center
    /// panel is dirty for it.
    pub open spec fn after_choice(self) -> ManagerModel {
        if self.marked_items().len() > 0 || self.center.panel.selected_path() is None {
            self
        } else {
            self.center_showing(self.center.panel.marked_selected()).marking(Redraw::center_only())
        }
    }

    /// The manager after the mark command: the selected entry is marked,
    /// the center panel is dirty for it, and the cursor moves down by one.
    pub open spec fn mark_added(self) -> ManagerModel {
        let marked = self.center_showing(self.center.panel.marked_selected());
        (if self.center.panel.selected_path() is Some {
            marked.marking(Redraw::center_only())
        } else {
            marked
        }).moved_down(1)
    }

    /// The manager with `panel` put into the left slot and cached.
    pub open spec fn left_updated(self, panel: PanelModel) -> ManagerModel {
        ManagerModel {
            left: self.left.holding(panel, Some(panel.path)),
            directories: self.directories.insert(panel.path, panel),
            ..self
        }
    }

    /// The manager with `panel` put into the center slot and cached.
    pub open spec fn center_updated(self, panel: PanelModel) -> ManagerModel {
        ManagerModel {
            center: self.center.holding(panel, Some(panel.path)),
            directories: self.directories.insert(panel.path, panel),
            ..self
        }
    }

    /// The manager with `panel` put into the right slot and cached.
    pub open spec fn right_updated(self, panel: PreviewModel) -> ManagerModel {
        ManagerModel {
            right: self.right.holding(panel, panel.maybe_path()),
            previews: cached::<PreviewPanel>(self.previews, panel),
            ..self
        }
    }

    /// The manager after a move to the left: the panels shift to the right
    /// by one, the new left panel is that of the parent and selects the
    /// directory that was left. Nothing happens where the left panel has no
    /// selected entry.
    pub open spec fn moved_left(self) -> ManagerModel {
        if self.left.panel.selected_path() is None {
            self
        } else {
            let shifted = ManagerModel { previous: self.center.panel.path, ..self }.right_updated(
                PreviewModel::Dir(self.center.panel),
            ).center_updated(self.left.panel);
            let pointed = shifted.left_pointed(parent_of(shifted.center.panel.path));
            pointed.left_showing(
                pointed.left.panel.with_selected(pointed.center.panel.path),
            ).left_right_unmarked().marking(Redraw::panels())
        }
    }

    /// The manager after a move to the right into a directory: the panels
    /// shift to the left by one, and the center panel is that of the path
    /// that the right panel showed.
    pub open spec fn moved_into(self) -> ManagerModel {
        ManagerModel { previous: self.center.panel.path, ..self }.left_updated(
            self.center.panel,
        ).center_pointed(self.right.panel.maybe_path()).preview_requested().marking(
            Redraw::panels(),
        ).left_right_unmarked()
    }

    /// The manager after a jump to `path`: nothing happens where `path` is
    /// the path of the center panel or does not exist; otherwise the left
    /// panel is that of the parent and selects `path`, and the center panel
    /// is that of `path`.
    pub open spec fn jumped(self, path: Seq<char>, exists: bool) -> ManagerModel {
        if path == self.center.panel.path || !exists {
            self
        } else {
            let pointed = ManagerModel { previous: self.center.panel.path, ..self }.left_pointed(
                parent_of(path),
            );
            pointed.left_showing(pointed.left.panel.with_selected(path)).center_pointed(
                Some(path),
            ).preview_requested().marking(Redraw::panels())
        }
    }
}

/// The panel manager.
#[derive(Debug)]
pub struct PanelManager {
    /// Left panel: the parent directory.
    pub left: ManagedPanel<DirPanel>,
    /// Center panel: the current directory.
    pub center: ManagedPanel<DirPanel>,
    /// Right panel: the preview of the selected entry.
    pub right: ManagedPanel<PreviewPanel>,
    /// The directory panels that were loaded before.
    pub directories: PanelCache<DirPanel>,
    /// The previews that were loaded before.
    pub previews: PanelCache<PreviewPanel>,
    /// Mode of operation.
    pub mode: Mode,
    /// What was cut or copied.
    pub clipboard: Option<Clipboard>,
    /// Miller-columns layout.
    pub layout: MillerColumns,
    /// Whether hidden files are shown.
    pub show_hidden: bool,
    /// Whether the log is shown.
    pub show_log: bool,
    /// The regions that need to be drawn again.
    pub redraw: Redraw,
    /// The directory that was current before the last change of directory.
    pub previous: String,
    /// The directory that was current when the console was opened.
    pub pre_console_path: String,
    /// The directory that takes what is deleted.
    pub trash_dir: String,
    /// The question that is open.
    pub pending: Pending,
    /// The effects that are left to be carried out.
    pub effects: Vec<Effect>,
}

impl View for PanelManager {
    type V = ManagerModel;

    open spec fn view(&self) -> ManagerModel {
        ManagerModel {
            left: self.left@,
            center: self.center@,
            right: self.right@,
            directories: self.directories@,
            previews: self.previews@,
            mode: self.mode@,
            clipboard: opt_clipboard_view(self.clipboard),
            layout: self.layout,
            show_hidden: self.show_hidden,
            show_log: self.show_log,
            redraw: self.redraw,
            previous: self.previous@,
            pre_console_path: self.pre_console_path@,
            trash_dir: self.trash_dir@,
            pending: self.pending@,
            effects: effect_views(self.effects@),
        }
    }
}

impl PanelManager {
    /// The panels and the caches are well-formed.
    pub open spec fn wf(&self) -> bool {
        &&& self.left.wf()
        &&& self.center.wf()
        &&& self.right.wf()
        &&& self.directories.wf()
        &&& self.previews.wf()
    }

    /// A manager for a terminal of the given size that starts in the
    /// directory `current`: the left panel shows the parent and selects
    /// `current`, the center panel shows `current`, the right panel the
    /// preview of its selected entry. The three load requests are left as
    /// effects, and every region is dirty.
    pub fn new(
        size: (u16, u16),
        current: String,
        trash_dir: String,
        directories: PanelCache<DirPanel>,
        previews: PanelCache<PreviewPanel>,
    ) -> (manager: PanelManager)
        requires
            directories.wf(),
            previews.wf(),
        ensures
            manager.wf(),
            manager@ == ManagerModel::initial(size, current@, trash_dir@, directories@, previews@),
    {
        let mut manager = PanelManager {
            left: ManagedPanel::new(),
            center: ManagedPanel::new(),
            right: ManagedPanel::new(),
            directories,
            previews,
            mode: Mode::Normal,
            clipboard: None,
            layout: MillerColumns::from_size(size),
            show_hidden: false,
            show_log: false,
            redraw: Redraw {
                left: true,
                center: true,
                right: true,
                console: true,
                log: true,
                header: true,
                footer: true,
            },
            previous: current.clone(),
            pre_console_path: current.clone(),
            trash_dir,
            pending: Pending::Idle,
            effects: Vec::new(),
        };
        assert(manager@.effects =~= Seq::empty());
        manager.point_left(crate::path::parent(current.as_str()));
        manager.point_center(Some(current));
        let selected = owned(manager.center.panel.selected_path());
        let request = manager.right.new_panel_instant(&manager.previews, selected);
        manager.emit_preview(request);
        let path = manager.center.panel.path().clone();
        manager.left.panel.select_path(&path);
        manager
    }

    /// Leaves `effect` to be carried out.
    pub(crate) fn emit(&mut self, effect: Effect)
        requires
            old(self).wf(),
        ensures
            final(self).wf(),
            final(self)@ == old(self)@.with_effect(effect@),
    {
        self.effects.push(effect);
        assert(effect_views(self.effects@) =~= effect_views(old(self).effects@).push(effect@));
    }

    /// Leaves a request to the directory worker, if there is one.
    pub(crate) fn emit_directory(&mut self, request: Option<Request>)
        requires
            old(self).wf(),
        ensures
            final(self).wf(),
            final(self)@ == old(self)@.with_directory_request(
                crate::slot::opt_request_view(request),
            ),
    {
        match request {
            Some(r) => self.emit(Effect::LoadDirectory(r)),
            None => {},
        }
    }

    /// Leaves a request to the preview worker, if there is one.
    pub(crate) fn emit_preview(&mut self, request: Option<Request>)
        requires
            old(self).wf(),
        ensures
            final(self).wf(),
            final(self)@ == old(self)@.with_preview_request(crate::slot::opt_request_view(request)),
    {
        match request {
            Some(r) => self.emit(Effect::LoadPreview(r)),
            None => {},
        }
    }

    /// Takes the effects that are left to be carried out, in their order.
    pub fn take_effects(&mut self) -> (effects: Vec<Effect>)
        requires
            old(self).wf(),
        ensures
            final(self).wf(),
            effect_views(effects@) == old(self)@.effects,
            final(self)@ == (ManagerModel { effects: Seq::empty(), ..old(self)@ }),
    {
        let mut effects: Vec<Effect> = Vec::new();
        std::mem::swap(&mut effects, &mut self.effects);
        assert(effect_views(self.effects@) =~= Seq::empty());
        effects
    }

    /// Points the left slot at `path`.
    pub(crate) fn point_left(&mut self, path: Option<String>)
        requires
            old(self).wf(),
        ensures
            final(self).wf(),
            final(self)@ == old(self)@.left_pointed(crate::text::opt_view(path)),
    {
        let request = self.left.new_panel_instant(&self.directories, path);
        self.emit_directory(request);
    }

    /// Points the center slot at `path`.
    pub(crate) fn point_center(&mut self, path: Option<String>)
        requires
            old(self).wf(),
        ensures
            final(self).wf(),
            final(self)@ == old(self)@.center_pointed(crate::text::opt_view(path)),
    {
        let request = self.center.new_panel_instant(&self.directories, path);
        self.emit_directory(request);
    }

    /// Asks for the preview of the selected entry, with a delayed request.
    pub(crate) fn request_preview(&mut self)
        requires
            old(self).wf(),
        ensures
            final(self).wf(),
            final(self)@ == old(self)@.preview_requested(),
    {
        let selected = owned(self.center.panel.selected_path());
        let request = self.right.new_panel_delayed(&self.previews, selected);
        self.emit_preview(request);
    }

    /// Marks the header dirty.
    pub fn redraw_header(&mut self)
        ensures
            final(self).wf() == old(self).wf(),
            final(self)@ == old(self)@.marking(Redraw::header_only()),
    {
        self.redraw.header = true;
    }

    /// Marks the footer dirty.
    pub fn redraw_footer(&mut self)
        ensures
            final(self).wf() == old(self).wf(),
            final(self)@ == old(self)@.marking(Redraw::footer_only()),
    {
        self.redraw.footer = true;
    }

    /// Marks the three panels dirty, and header and footer with them.
    pub fn redraw_panels(&mut self)
        ensures
            final(self).wf() == old(self).wf(),
            final(self)@ == old(self)@.marking(Redraw::panels()),
    {
        self.redraw.left = true;
        self.redraw.center = true;
        self.redraw.right = true;
        self.redraw.header = true;
        self.redraw.footer = true;
    }

    /// Marks the left panel dirty, and the log that may lie over it.
    pub fn redraw_left(&mut self)
        ensures
            final(self).wf() == old(self).wf(),
            final(self)@ == old(self)@.marking(Redraw::left_change()),
    {
        self.redraw.left = true;
        self.redraw.log = true;
    }

    /// Marks the center panel dirty, and header, footer and log with it.
    pub fn redraw_center(&mut self)
        ensures
            final(self).wf() == old(self).wf(),
            final(self)@ == old(self)@.marking(Redraw::center_change()),
    {
        self.redraw.center = true;
        self.redraw.footer = true;
        self.redraw.header = true;
        self.redraw.log = true;
    }

    /// Marks the right panel dirty, and the log that may lie over it.
    pub fn redraw_right(&mut self)
        ensures
            final(self).wf() == old(self).wf(),
            final(self)@ == old(self)@.marking(Redraw::right_change()),
    {
        self.redraw.right = true;
        self.redraw.log = true;
    }

    /// Marks the console overlay dirty.
    pub fn redraw_console(&mut self)
        ensures
            final(self).wf() == old(self).wf(),
            final(self)@ == old(self)@.marking(Redraw::console_only()),
    {
        self.redraw.console = true;
    }

    /// Marks everything dirty but the log.
    pub fn redraw_everything(&mut self)
        ensures
            final(self).wf() == old(self).wf(),
            final(self)@ == old(self)@.marking(Redraw::everything()),
    {
        self.redraw.header = true;
        self.redraw.footer = true;
        self.redraw.left = true;
        self.redraw.center = true;
        self.redraw.right = true;
        self.redraw.console = true;
    }

    /// Marks the log dirty.
    pub fn redraw_log(&mut self)
        ensures
            final(self).wf() == old(self).wf(),
            final(self)@ == old(self)@.marking(Redraw::log_only()),
    {
        self.redraw.log = true;
    }
}

} // verus!
