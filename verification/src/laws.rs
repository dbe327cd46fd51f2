//! What holds of the manager whatever state it is in.

use vstd::prelude::*;
use crate::directory::lemma_same_listing;
use crate::directory::lemma_shown_upto;
use crate::directory::PanelModel;
use crate::event::Event;
use crate::layout::lemma_layout_valid;
use crate::manager::ManagerModel;
use crate::path::parent_of;
use crate::preview::PreviewModel;
use crate::redraw::Redraw;
use crate::render::no_permissions;
use crate::render::Color;
use crate::render::DrawModel;
use crate::render::SceneModel;
use crate::render::Style;
use crate::session::NextModel;
use crate::slot::StateModel;

verus! {

/// A panel without marks has no marked paths.
pub proof fn lemma_unmarked_has_no_marks(m: PanelModel, n: int)
    requires
        0 <= n <= m.elems.len(),
    ensures
        m.unmarked().marked_paths_upto(n) == Seq::<Seq<char>>::empty(),
        n == m.elems.len() ==> m.unmarked().marked_paths() == Seq::<Seq<char>>::empty(),
    decreases n,
{
    if n > 0 {
        lemma_unmarked_has_no_marks(m, n - 1);
    }
}

/// A preview without marks has no marked paths.
pub proof fn lemma_unmarked_preview(p: PreviewModel)
    ensures
        p.unmarked().marked_paths() == Seq::<Seq<char>>::empty(),
{
    match p {
        PreviewModel::Dir(panel) => {
            lemma_unmarked_has_no_marks(panel, panel.elems.len() as int);
        },
        _ => {},
    }
}

/// After a move to the left or to the right, nothing is marked in the left
/// and right panels: not after the panels have shifted to the right, not
/// after they have shifted to the left into a directory, and not after the
/// opener has returned.
pub proof fn lemma_horizontal_move_unmarks(m: ManagerModel)
    ensures
        m.left.panel.selected_path() is Some ==> m.moved_left().left.panel.marked_paths().len() == 0
            && m.moved_left().right.panel.marked_paths().len() == 0,
        m.moved_into().left.panel.marked_paths().len() == 0,
        m.moved_into().right.panel.marked_paths().len() == 0,
        m.opened().left.panel.marked_paths().len() == 0,
        m.opened().right.panel.marked_paths().len() == 0,
{
    if m.left.panel.selected_path() is Some {
        let after = m.moved_left();
        let left = choose|p: PanelModel| after.left.panel == p.unmarked();
        lemma_unmarked_has_no_marks(left, left.elems.len() as int);
        let right = choose|p: PreviewModel| after.right.panel == p.unmarked();
        lemma_unmarked_preview(right);
    }
    let into = m.moved_into();
    let left = choose|p: PanelModel| into.left.panel == p.unmarked();
    lemma_unmarked_has_no_marks(left, left.elems.len() as int);
    let right = choose|p: PreviewModel| into.right.panel == p.unmarked();
    lemma_unmarked_preview(right);
    lemma_unmarked_has_no_marks(m.left.panel, m.left.panel.elems.len() as int);
    lemma_unmarked_preview(m.right.panel);
}

/// The position that a search for a path finds holds that path, and a path
/// that a shown entry has is found.
pub proof fn lemma_find_shown(m: PanelModel, path: Seq<char>, k: int)
    requires
        0 <= k <= m.shown().len(),
    ensures
        m.find_shown(path, k) matches Some(j) ==> k <= j < m.shown().len()
            && m.elems[m.shown()[j]].path == path,
        m.find_shown(path, k) is None ==> forall|j: int|
            k <= j < m.shown().len() ==> m.elems[#[trigger] m.shown()[j]].path != path,
    decreases m.shown().len() - k,
{
    if k < m.shown().len() && m.elems[m.shown()[k]].path != path {
        lemma_find_shown(m, path, k + 1);
    }
}

/// Selecting a path that a shown entry has selects an entry with that path.
pub proof fn lemma_select_path(m: PanelModel, path: Seq<char>, k: int)
    requires
        0 <= k < m.shown().len(),
        m.elems[m.shown()[k]].path == path,
    ensures
        m.with_selected(path).selected_path() == Some(path),
        m.with_selected(path).wf(),
{
    lemma_find_shown(m, path, 0);
    assert(m.find_shown(path, 0) is Some);
    let j = m.find_shown(path, 0)->0;
    lemma_same_listing(m.at(j as nat), m, m.elems.len() as int);
}

/// After the filter for hidden entries has been flipped, the left panel
/// selects the path of the center panel, provided that the left panel
/// lists that path among the entries that it shows under the new filter.
pub proof fn lemma_toggle_reselects(m: ManagerModel, k: int)
    requires
        0 <= k < m.left.panel.with_hidden(!m.show_hidden).shown().len(),
        m.left.panel.elems[m.left.panel.with_hidden(!m.show_hidden).shown()[k]].path
            == m.center.panel.path,
    ensures
        m.hidden_toggled().left.panel.selected_path() == Some(m.center.panel.path),
        m.hidden_toggled().show_hidden == !m.show_hidden,
        m.hidden_toggled().redraw.covers(Redraw::everything()),
{
    let left = m.left.panel.with_hidden(!m.show_hidden);
    let center = m.center.panel.with_hidden(!m.show_hidden);
    assert(center.path == m.center.panel.path);
    lemma_select_path(left, center.path, k);
}

/// Moving the cursor up from the first entry, or down from the last,
/// changes nothing: no panel, no effect, no redraw flag.
pub proof fn lemma_moves_at_the_ends(m: ManagerModel, step: nat)
    ensures
        m.center.panel.cursor == 0 ==> m.moved_up(step) == m,
        m.center.panel.cursor + 1 == m.center.panel.shown().len() ==> m.moved_down(step) == m,
        m.center.panel.shown().len() == 0 ==> m.moved_down(step) == m,
{
    if m.center.panel.cursor == 0 {
        assert(m.center.panel.moved_up(step) == m.center.panel);
    }
    if m.center.panel.cursor + 1 == m.center.panel.shown().len() {
        assert(m.center.panel.moved_down(step) == m.center.panel);
    }
}

/// A jump to the path of the center panel changes nothing, whether the
/// path exists or not, and nothing is asked for it.
pub proof fn lemma_jump_to_current(m: ManagerModel, exists: bool)
    ensures
        m.jumped(m.center.panel.path, exists) == m,
        m.jump_asked(m.center.panel.path, crate::session::After::Nothing) == m.goes_on(),
{
}

/// A new size of the terminal gives a valid layout for that size and has
/// everything drawn again; nothing else changes, and nothing is asked.
pub proof fn lemma_resize(m: ManagerModel, width: u16, height: u16)
    ensures
        m.event_handled(Event::Resize(width, height)).next == NextModel::Continue,
        m.event_handled(Event::Resize(width, height)).state.layout.valid(),
        m.event_handled(Event::Resize(width, height)).state.layout
            == crate::layout::MillerColumns::of_size(width, height),
        m.event_handled(Event::Resize(width, height)).state.redraw.covers(Redraw::everything()),
        m.event_handled(Event::Resize(width, height)).state.redraw.covers(m.redraw),
        m.event_handled(Event::Resize(width, height)).state == (ManagerModel {
            layout: m.event_handled(Event::Resize(width, height)).state.layout,
            redraw: m.event_handled(Event::Resize(width, height)).state.redraw,
            ..m
        }),
{
    lemma_layout_valid(width, height);
}

/// In a directory without an entry to show, nothing is selected, the
/// footer shows the placeholder in place of permissions, and the preview
/// that is asked for is nothing.
pub proof fn lemma_empty_directory(m: ManagerModel, scene: SceneModel)
    requires
        m.center.panel.shown().len() == 0,
    ensures
        m.center.panel.selected_path() is None,
        m.center.panel.position() == (0nat, 0nat),
        m.selection_ops(scene) == seq![
            DrawModel::Styled(no_permissions(), Style::plain(Color::DarkCyan)),
        ],
        m.preview_requested().right.panel == PreviewModel::Nothing,
        m.preview_requested().effects == m.effects,
{
}

/// A loaded panel is applied by the slot whose current state it carries and
/// by no other: a directory panel whose state is neither that of the
/// center slot nor that of the left slot changes no panel and no cache; nor
/// does a preview whose state is not that of the right slot; nor does a
/// panel for a slot that is frozen.
pub proof fn lemma_stale_is_dropped(
    m: ManagerModel,
    panel: PanelModel,
    preview: PreviewModel,
    state: StateModel,
)
    ensures
        (state != m.center.state || m.center.frozen) && (state != m.left.state || m.left.frozen)
            ==> {
            let after = m.directory_loaded(panel, state);
            &&& after.left == m.left
            &&& after.center == m.center
            &&& after.right == m.right
            &&& after.directories == m.directories
            &&& after.previews == m.previews
            &&& after.redraw == m.redraw
        },
        state == m.center.state && !m.center.frozen ==> m.directory_loaded(
            panel,
            state,
        ).center.panel == panel,
        (state != m.center.state || m.center.frozen) && state == m.left.state && !m.left.frozen
            ==> m.directory_loaded(panel, state).center == m.center && m.directory_loaded(
            panel,
            state,
        ).left.panel.elems == panel.elems,
        state != m.right.state || m.right.frozen ==> m.preview_loaded(preview, state) == m,
        state == m.right.state && !m.right.frozen ==> m.preview_loaded(preview, state).right.panel
            == preview,
{
}

/// A panel that was asked for before the slot advanced is not applied: once
/// the center slot has been pointed elsewhere, the state of its earlier
/// request is accepted no more.
pub proof fn lemma_superseded(m: ManagerModel, path: Option<Seq<char>>)
    ensures
        !m.center_pointed(path).center.accepts(m.center.state),
        !m.left_pointed(path).left.accepts(m.left.state),
        !m.preview_requested().right.accepts(m.right.state),
        !m.center_reloaded().center.accepts(m.center.state),
{
}

/// While the opener runs the center slot is frozen, and a directory panel
/// that carries the state of the center slot is dropped; once the opener
/// has returned, the freeze is over.
pub proof fn lemma_frozen_while_open(
    m: ManagerModel,
    selected: Seq<char>,
    panel: PanelModel,
)
    requires
        m.center.state != m.left.state,
    ensures
        m.entered(selected, false).state.center.frozen,
        m.entered(selected, false).state.directory_loaded(
            panel,
            m.entered(selected, false).state.center.state,
        ).center == m.entered(selected, false).state.center,
        !m.entered(selected, false).state.opened().center.frozen,
        m.entered(selected, false).state.opened().redraw.covers(Redraw::everything()),
{
}

/// Pasting empties the clipboard and leaves no mark in any panel.
pub proof fn lemma_paste_consumes(m: ManagerModel, overwrite: bool)
    ensures
        m.pasted(overwrite).clipboard is None,
        m.pasted(overwrite).marked_items().len() == 0,
{
    lemma_unmarked_has_no_marks(m.left.panel, m.left.panel.elems.len() as int);
    lemma_unmarked_has_no_marks(m.center.panel, m.center.panel.elems.len() as int);
    lemma_unmarked_preview(m.right.panel);
}

/// What is cut or copied is what is pasted: a paste that follows hands on
/// the chosen paths with the flag that says which of the two it was, and
/// names the current directory as the target.
pub proof fn lemma_clip_then_paste(m: ManagerModel, cut: bool, overwrite: bool)
    ensures
        m.clipped(cut).clipboard == Some(
            crate::mode::ClipboardModel { files: m.chosen(), cut },
        ),
        m.clipped(cut).pasted(overwrite).effects.len() > m.clipped(cut).effects.len(),
        m.clipped(cut).pasted(overwrite).effects[m.clipped(cut).effects.len() as int]
            == (crate::session::EffectModel::Paste {
            files: m.chosen(),
            cut,
            target: m.center.panel.path,
            overwrite,
        }),
{
    let clipped = m.clipped(cut);
    let unmarked = clipped.all_unmarked();
    assert(unmarked.center.panel.path == m.center.panel.path);
    assert(unmarked.effects == clipped.effects);
}

/// Where something is marked, the paths that a command works on are the
/// marked paths, and choosing them changes nothing. Where nothing is
/// marked, they are the selected path alone, and choosing marks it; where
/// nothing is selected either, there is no path.
pub proof fn lemma_marked_or_selected(m: ManagerModel)
    ensures
        m.marked_items().len() > 0 ==> m.chosen() == m.marked_items() && m.after_choice() == m,
        m.marked_items().len() == 0 ==> match m.center.panel.selected_path() {
            Some(path) => m.chosen() == seq![path],
            None => m.chosen().len() == 0,
        },
        m.marked_items().len() == 0 ==> m.after_choice().center.panel
            == m.center.panel.marked_selected(),
        m.after_choice().redraw.covers(m.redraw),
{
}

/// A move to the right into a directory and then a move to the left give
/// back the panels as they were, but for the marks, which are gone: those of
/// left and right, and those of the center panel, which was the left panel
/// in between. This holds where the directory cache holds the left panel under the parent
/// of the current directory and the previewed listing under its own path,
/// the left panel selects the current directory, an entry is selected, and
/// the three directories differ.
pub proof fn lemma_right_then_left(m: ManagerModel, listing: PanelModel, parent: Seq<char>)
    requires
        m.center.panel.selected_path() is Some,
        m.right.panel == PreviewModel::Dir(listing),
        m.directories.contains_key(listing.path),
        m.directories[listing.path] == listing,
        parent_of(m.center.panel.path) == Some(parent),
        m.directories.contains_key(parent),
        m.directories[parent] == m.left.panel,
        m.left.panel.with_selected(m.center.panel.path) == m.left.panel,
        parent != m.center.panel.path,
        parent != listing.path,
        listing.path != m.center.panel.path,
    ensures
        m.moved_into().moved_left().center.panel == m.center.panel.unmarked(),
        (forall|i: int| 0 <= i < m.center.panel.elems.len() ==> !m.center.panel.elems[i].marked)
            ==> m.moved_into().moved_left().center.panel == m.center.panel,
        m.moved_into().moved_left().left.panel == m.left.panel.unmarked(),
        m.moved_into().moved_left().right.panel == m.right.panel.unmarked(),
        m.moved_into().center.panel == listing,
        m.moved_into().left.panel == m.center.panel.unmarked(),
{
    let into = m.moved_into();
    assert(into.center.panel == listing);
    assert(into.left.panel == m.center.panel.unmarked());
    let c = m.center.panel;
    lemma_same_listing(c.unmarked(), c, c.elems.len() as int);
    assert(c.unmarked().selected_path() == c.selected_path()) by {
        lemma_shown_upto(c, c.elems.len() as int);
    }
    if forall|i: int| 0 <= i < c.elems.len() ==> !c.elems[i].marked {
        assert(c.unmarked().elems =~= c.elems);
    }
}

/// The freeze follows the open question: the center slot is frozen exactly
/// while the opener runs or a bulk rename is under way, and the left and
/// right slots are never frozen.
pub open spec fn freeze_follows_question(m: ManagerModel) -> bool {
    &&& m.center.frozen <==> (m.pending is Open || m.pending is Edit || m.pending is Collide)
    &&& !m.left.frozen
    &&& !m.right.frozen
}

/// A manager starts with no slot frozen and no question open.
pub proof fn lemma_freeze_at_start(
    size: (u16, u16),
    current: Seq<char>,
    trash_dir: Seq<char>,
    directories: Map<Seq<char>, PanelModel>,
    previews: Map<Seq<char>, PreviewModel>,
)
    ensures
        freeze_follows_question(
            ManagerModel::initial(size, current, trash_dir, directories, previews),
        ),
        ManagerModel::initial(size, current, trash_dir, directories, previews).pending is Idle,
{
}

/// Whether no slot was frozen or unfrozen and no question was asked or
/// answered between `a` and `b`.
pub open spec fn calm(a: ManagerModel, b: ManagerModel) -> bool {
    &&& b.left.frozen == a.left.frozen
    &&& b.center.frozen == a.center.frozen
    &&& b.right.frozen == a.right.frozen
    &&& b.pending == a.pending
}

/// Moving the cursor freezes nothing and asks nothing.
proof fn lemma_calm_cursor(m: ManagerModel, step: nat)
    ensures
        calm(m, m.moved_up(step)),
        calm(m, m.moved_down(step)),
        calm(m, m.selection_changed()),
        calm(m, m.preview_requested()),
{
}

/// Shifting the panels freezes nothing and asks nothing.
proof fn lemma_calm_shift(m: ManagerModel)
    ensures
        calm(m, m.moved_left()),
        calm(m, m.moved_into()),
        calm(m, m.left_right_unmarked()),
        calm(m, m.all_unmarked()),
{
}

/// A jump freezes nothing and asks nothing.
proof fn lemma_calm_jump(m: ManagerModel, path: Seq<char>, exists: bool)
    ensures
        calm(m, m.jumped(path, exists)),
{
}

/// The toggles freeze nothing and ask nothing.
proof fn lemma_calm_toggles(m: ManagerModel)
    ensures
        calm(m, m.hidden_toggled()),
        calm(m, m.log_toggled()),
{
}

/// Loading the panels again freezes nothing and asks nothing.
proof fn lemma_calm_reload(m: ManagerModel)
    ensures
        calm(m, m.all_reloaded()),
        calm(m, m.center_reloaded()),
        calm(m, m.right_reloaded()),
        calm(m, m.left_reloaded()),
{
}

/// Choosing the paths for a command freezes nothing and asks nothing.
proof fn lemma_calm_choice(m: ManagerModel, cut: bool)
    ensures
        calm(m, m.after_choice()),
        calm(m, m.clipped(cut)),
        calm(m, m.mark_added()),
{
    lemma_calm_cursor(m.center_showing(m.center.panel.marked_selected()), 1);
    lemma_calm_cursor(
        m.center_showing(m.center.panel.marked_selected()).marking(Redraw::center_only()),
        1,
    );
}

/// Deleting freezes nothing and asks nothing.
proof fn lemma_calm_delete(m: ManagerModel)
    ensures
        calm(m, m.deleted()),
{
    lemma_calm_choice(m, true);
    let files = m.chosen();
    let logged = m.after_choice().with_effect(
        crate::session::EffectModel::Log(
            crate::session::Level::Info,
            crate::input::items_text("Deleted "@, files.len()),
        ),
    );
    assert(calm(m, logged));
    lemma_calm_shift(logged);
    let trashed = logged.all_unmarked().with_effect(crate::session::EffectModel::Trash(files));
    assert(calm(m, trashed));
    lemma_calm_reload(trashed);
    assert(m.deleted() == trashed.all_reloaded());
}

/// Pasting freezes nothing and asks nothing.
proof fn lemma_calm_paste(m: ManagerModel, overwrite: bool)
    ensures
        calm(m, m.pasted(overwrite)),
{
    lemma_calm_shift(m);
    let unmarked = m.all_unmarked();
    let emptied = match unmarked.clipboard {
        Some(clipboard) => ManagerModel { clipboard: None, ..unmarked }.with_effect(
            crate::session::EffectModel::Paste {
                files: clipboard.files,
                cut: clipboard.cut,
                target: unmarked.center.panel.path,
                overwrite,
            },
        ),
        None => unmarked,
    };
    assert(calm(m, emptied));
    lemma_calm_reload(emptied);
    assert(m.pasted(overwrite) == emptied.all_reloaded().marking(Redraw::panels()));
}

/// A move keeps the freeze in step with the open question.
proof fn lemma_freeze_move(m: ManagerModel, movement: crate::event::MoveModel)
    requires
        freeze_follows_question(m),
        m.pending is Idle,
    ensures
        freeze_follows_question(m.cursor_moved(movement).state),
{
    match movement {
        crate::event::MoveModel::Up => {
            lemma_calm_cursor(m, 1);
        },
        crate::event::MoveModel::Down => {
            lemma_calm_cursor(m, 1);
        },
        crate::event::MoveModel::Left => {
            lemma_calm_shift(m);
        },
        crate::event::MoveModel::Right => {},
        crate::event::MoveModel::Top => {
            lemma_calm_cursor(m, usize::MAX as nat);
        },
        crate::event::MoveModel::Bottom => {
            lemma_calm_cursor(m, usize::MAX as nat);
        },
        crate::event::MoveModel::HalfPageForward => {
            lemma_calm_cursor(m, m.layout.rows() / 2);
        },
        crate::event::MoveModel::HalfPageBackward => {
            lemma_calm_cursor(m, m.layout.rows() / 2);
        },
        crate::event::MoveModel::PageForward => {
            lemma_calm_cursor(m, m.layout.rows());
        },
        crate::event::MoveModel::PageBackward => {
            lemma_calm_cursor(m, m.layout.rows());
        },
        crate::event::MoveModel::JumpTo(path) => {},
        crate::event::MoveModel::JumpPrevious => {},
    }
}

/// The rename command keeps the freeze in step with the open question.
proof fn lemma_freeze_rename(m: ManagerModel)
    requires
        freeze_follows_question(m),
        m.pending is Idle,
    ensures
        freeze_follows_question(m.rename_started().state),
{
    lemma_calm_choice(m, true);
}

/// A command keeps the freeze in step with the open question.
proof fn lemma_freeze_command(m: ManagerModel, command: crate::event::CommandModel)
    requires
        freeze_follows_question(m),
        m.pending is Idle,
    ensures
        freeze_follows_question(m.commanded(command).state),
{
    match command {
        crate::event::CommandModel::Move(movement) => {
            lemma_freeze_move(m, movement);
        },
        crate::event::CommandModel::ToggleHidden => {
            lemma_calm_toggles(m);
        },
        crate::event::CommandModel::ToggleLog => {
            lemma_calm_toggles(m);
        },
        crate::event::CommandModel::Rename => {
            lemma_freeze_rename(m);
        },
        crate::event::CommandModel::Next => {
            lemma_calm_cursor(m.center_showing(m.center.panel.next_marked()), 1);
        },
        crate::event::CommandModel::Previous => {
            lemma_calm_cursor(m.center_showing(m.center.panel.prev_marked()), 1);
        },
        crate::event::CommandModel::Mark => {
            lemma_calm_choice(m, true);
        },
        crate::event::CommandModel::Cut => {
            lemma_calm_choice(m, true);
        },
        crate::event::CommandModel::Copy => {
            lemma_calm_choice(m, false);
        },
        crate::event::CommandModel::Delete => {
            lemma_calm_delete(m);
        },
        crate::event::CommandModel::Paste { overwrite } => {
            lemma_calm_paste(m, overwrite);
        },
        _ => {},
    }
}

/// What follows a jump keeps the freeze in step with the open question.
proof fn lemma_freeze_after_jump(m: ManagerModel, after: crate::session::After)
    requires
        freeze_follows_question(m),
        m.pending is Idle,
    ensures
        freeze_follows_question(m.after_jump(after).state),
{
    lemma_calm_shift(
        m.in_mode(crate::mode::ModeModel::Normal).with_effect(
            crate::session::EffectModel::ClearKeys,
        ).center_showing(m.center.panel.search_cleared()).marking(Redraw::panels()).marking(
            Redraw::footer_only(),
        ),
    );
}

/// An answer keeps the freeze in step with the open question.
proof fn lemma_freeze_answer(m: ManagerModel, answer: crate::session::AnswerModel)
    requires
        freeze_follows_question(m),
    ensures
        freeze_follows_question(m.answered(answer).state),
{
    match (m.pending, answer) {
        (
            crate::session::PendingModel::Command,
            crate::session::AnswerModel::Command(command),
        ) => {
            lemma_freeze_command(m.settled(), command);
        },
        (
            crate::session::PendingModel::Console,
            crate::session::AnswerModel::Console(path),
        ) => {
            lemma_freeze_after_jump(m.settled(), crate::session::After::Console);
        },
        (
            crate::session::PendingModel::Jump { path, after },
            crate::session::AnswerModel::Exists(exists),
        ) => {
            lemma_calm_jump(m.settled(), path, exists);
            lemma_freeze_after_jump(m.settled().jumped(path, exists), after);
        },
        (
            crate::session::PendingModel::Enter { path },
            crate::session::AnswerModel::IsDir(is_dir),
        ) => {
            lemma_calm_shift(m.settled());
        },
        (crate::session::PendingModel::Open, crate::session::AnswerModel::Opened) => {
            lemma_calm_shift(
                m.settled().center_frozen(false).marking(Redraw::everything()),
            );
        },
        _ => {},
    }
}

/// An event of the terminal keeps the freeze in step with the open
/// question.
proof fn lemma_freeze_event(m: ManagerModel, event: Event)
    requires
        freeze_follows_question(m),
        m.pending is Idle,
    ensures
        freeze_follows_question(m.event_handled(event).state),
{
    let escaping = m.in_mode(crate::mode::ModeModel::Normal).with_effect(
        crate::session::EffectModel::ClearKeys,
    ).center_showing(m.center.panel.search_cleared()).marking(Redraw::panels()).marking(
        Redraw::footer_only(),
    );
    lemma_calm_shift(escaping);
    lemma_freeze_after_jump(m, crate::session::After::Escape);
    match event {
        Event::Key(key) => {
            match m.mode {
                crate::mode::ModeModel::Search { input } => {
                    lemma_calm_cursor(
                        m.center_showing(m.center.panel.search_finished(input).next_marked()),
                        1,
                    );
                },
                crate::mode::ModeModel::Rename { input } => {
                    match m.center.panel.selected_path() {
                        Some(from) => {
                            lemma_calm_reload(
                                m.with_effect(
                                    crate::session::EffectModel::Rename(
                                        crate::session::RenamingModel {
                                            from,
                                            to: ManagerModel::rename_target(from, input),
                                        },
                                    ),
                                ).in_mode(crate::mode::ModeModel::Normal),
                            );
                        },
                        None => {
                            lemma_calm_reload(m.in_mode(crate::mode::ModeModel::Normal));
                        },
                    }
                },
                _ => {},
            }
        },
        _ => {},
    }
}

/// A loaded panel keeps the freeze in step with the open question.
proof fn lemma_freeze_loaded(
    m: ManagerModel,
    panel: PanelModel,
    preview: PreviewModel,
    state: StateModel,
)
    requires
        freeze_follows_question(m),
    ensures
        freeze_follows_question(m.directory_loaded(panel, state)),
        freeze_follows_question(m.preview_loaded(preview, state)),
{
    lemma_calm_cursor(m.center_updated(panel), 1);
}

/// Every turn of the event loop keeps the freeze in step with the open
/// question: whatever the message, a slot is frozen afterwards only while
/// the opener runs or a bulk rename is under way, and the freeze ends with
/// them.
pub proof fn lemma_freeze_discipline(m: ManagerModel, message: crate::session::MessageModel)
    requires
        freeze_follows_question(m),
    ensures
        freeze_follows_question(m.ran(message).state),
{
    match message {
        crate::session::MessageModel::Answer(answer) => {
            lemma_freeze_answer(m, answer);
        },
        crate::session::MessageModel::Terminal(event) => {
            if m.pending is Idle {
                lemma_freeze_event(m, event);
            }
        },
        crate::session::MessageModel::Directory(panel, state) => {
            lemma_freeze_loaded(m, panel, PreviewModel::Nothing, state);
        },
        crate::session::MessageModel::Preview(preview, state) => {
            lemma_freeze_loaded(m, PanelModel::blank(Seq::empty()), preview, state);
        },
        _ => {},
    }
}

/// Whether a turn ends with the question open that it asks: the record of
/// the open question names what was asked, and where nothing is asked no
/// question is open.
pub open spec fn asks_what_is_open(turn: crate::input::Turn) -> bool {
    match turn.next {
        NextModel::Continue => turn.state.pending is Idle,
        NextModel::Quit => turn.state.pending is Idle,
        NextModel::Ask(crate::session::QuestionModel::Command(_)) => turn.state.pending is Command,
        NextModel::Ask(crate::session::QuestionModel::Console(_)) => turn.state.pending is Console,
        NextModel::Ask(crate::session::QuestionModel::Exists(path)) => turn.state.pending is Jump
            && turn.state.pending->Jump_path == path,
        NextModel::Ask(crate::session::QuestionModel::IsDir(path)) => turn.state.pending
            == (crate::session::PendingModel::Enter { path }),
        NextModel::Ask(crate::session::QuestionModel::Open(_)) => turn.state.pending is Open,
        NextModel::Ask(crate::session::QuestionModel::Edit(_)) => turn.state.pending is Edit,
        NextModel::Ask(crate::session::QuestionModel::AnyExists(paths)) => turn.state.pending
            is Collide && turn.state.pending->targets == paths,
    }
}

/// Whether `answer` answers the question that `pending` records.
pub open spec fn answers(
    pending: crate::session::PendingModel,
    answer: crate::session::AnswerModel,
) -> bool {
    match (pending, answer) {
        (crate::session::PendingModel::Command, crate::session::AnswerModel::Command(_)) => true,
        (crate::session::PendingModel::Console, crate::session::AnswerModel::Console(_)) => true,
        (crate::session::PendingModel::Jump { .. }, crate::session::AnswerModel::Exists(_)) => true,
        (crate::session::PendingModel::Enter { .. }, crate::session::AnswerModel::IsDir(_)) => true,
        (crate::session::PendingModel::Open, crate::session::AnswerModel::Opened) => true,
        (crate::session::PendingModel::Edit { .. }, crate::session::AnswerModel::Edited(_)) => true,
        (
            crate::session::PendingModel::Collide { .. },
            crate::session::AnswerModel::Exists(_),
        ) => true,
        _ => false,
    }
}

/// A move ends with the question open that it asks.
proof fn lemma_open_move(m: ManagerModel, movement: crate::event::MoveModel)
    requires
        m.pending is Idle,
    ensures
        asks_what_is_open(m.cursor_moved(movement)),
{
    match movement {
        crate::event::MoveModel::Up => {
            lemma_calm_cursor(m, 1);
        },
        crate::event::MoveModel::Down => {
            lemma_calm_cursor(m, 1);
        },
        crate::event::MoveModel::Left => {
            lemma_calm_shift(m);
        },
        crate::event::MoveModel::Right => {},
        crate::event::MoveModel::Top => {
            lemma_calm_cursor(m, usize::MAX as nat);
        },
        crate::event::MoveModel::Bottom => {
            lemma_calm_cursor(m, usize::MAX as nat);
        },
        crate::event::MoveModel::HalfPageForward => {
            lemma_calm_cursor(m, m.layout.rows() / 2);
        },
        crate::event::MoveModel::HalfPageBackward => {
            lemma_calm_cursor(m, m.layout.rows() / 2);
        },
        crate::event::MoveModel::PageForward => {
            lemma_calm_cursor(m, m.layout.rows());
        },
        crate::event::MoveModel::PageBackward => {
            lemma_calm_cursor(m, m.layout.rows());
        },
        crate::event::MoveModel::JumpTo(path) => {},
        crate::event::MoveModel::JumpPrevious => {},
    }
}

/// A command ends with the question open that it asks.
proof fn lemma_open_command(m: ManagerModel, command: crate::event::CommandModel)
    requires
        m.pending is Idle,
    ensures
        asks_what_is_open(m.commanded(command)),
{
    match command {
        crate::event::CommandModel::Move(movement) => {
            lemma_open_move(m, movement);
        },
        crate::event::CommandModel::ToggleHidden => {
            lemma_calm_toggles(m);
        },
        crate::event::CommandModel::ToggleLog => {
            lemma_calm_toggles(m);
        },
        crate::event::CommandModel::Rename => {
            lemma_calm_choice(m, true);
        },
        crate::event::CommandModel::Next => {
            lemma_calm_cursor(m.center_showing(m.center.panel.next_marked()), 1);
        },
        crate::event::CommandModel::Previous => {
            lemma_calm_cursor(m.center_showing(m.center.panel.prev_marked()), 1);
        },
        crate::event::CommandModel::Mark => {
            lemma_calm_choice(m, true);
        },
        crate::event::CommandModel::Cut => {
            lemma_calm_choice(m, true);
        },
        crate::event::CommandModel::Copy => {
            lemma_calm_choice(m, false);
        },
        crate::event::CommandModel::Delete => {
            lemma_calm_delete(m);
        },
        crate::event::CommandModel::Paste { overwrite } => {
            lemma_calm_paste(m, overwrite);
        },
        _ => {},
    }
}

/// What follows a jump ends with the question open that it asks.
proof fn lemma_open_after_jump(m: ManagerModel, after: crate::session::After)
    requires
        m.pending is Idle,
    ensures
        asks_what_is_open(m.after_jump(after)),
{
    lemma_calm_shift(
        m.in_mode(crate::mode::ModeModel::Normal).with_effect(
            crate::session::EffectModel::ClearKeys,
        ).center_showing(m.center.panel.search_cleared()).marking(Redraw::panels()).marking(
            Redraw::footer_only(),
        ),
    );
}

/// The answer to the open question ends with the question open that is
/// asked next.
proof fn lemma_open_answer(m: ManagerModel, answer: crate::session::AnswerModel)
    requires
        answers(m.pending, answer),
    ensures
        asks_what_is_open(m.answered(answer)),
{
    match (m.pending, answer) {
        (
            crate::session::PendingModel::Command,
            crate::session::AnswerModel::Command(command),
        ) => {
            lemma_open_command(m.settled(), command);
        },
        (
            crate::session::PendingModel::Console,
            crate::session::AnswerModel::Console(path),
        ) => {
            lemma_open_after_jump(m.settled(), crate::session::After::Console);
        },
        (
            crate::session::PendingModel::Jump { path, after },
            crate::session::AnswerModel::Exists(exists),
        ) => {
            lemma_calm_jump(m.settled(), path, exists);
            lemma_open_after_jump(m.settled().jumped(path, exists), after);
        },
        (
            crate::session::PendingModel::Enter { path },
            crate::session::AnswerModel::IsDir(is_dir),
        ) => {
            lemma_calm_shift(m.settled());
        },
        (crate::session::PendingModel::Open, crate::session::AnswerModel::Opened) => {
            lemma_calm_shift(
                m.settled().center_frozen(false).marking(Redraw::everything()),
            );
        },
        _ => {},
    }
}

/// An event of the terminal ends with the question open that it asks.
proof fn lemma_open_event(m: ManagerModel, event: Event)
    requires
        m.pending is Idle,
    ensures
        asks_what_is_open(m.event_handled(event)),
{
    let escaping = m.in_mode(crate::mode::ModeModel::Normal).with_effect(
        crate::session::EffectModel::ClearKeys,
    ).center_showing(m.center.panel.search_cleared()).marking(Redraw::panels()).marking(
        Redraw::footer_only(),
    );
    lemma_calm_shift(escaping);
    lemma_open_after_jump(m, crate::session::After::Escape);
    match event {
        Event::Key(key) => {
            match m.mode {
                crate::mode::ModeModel::Search { input } => {
                    lemma_calm_cursor(
                        m.center_showing(m.center.panel.search_finished(input).next_marked()),
                        1,
                    );
                },
                crate::mode::ModeModel::Rename { input } => {
                    match m.center.panel.selected_path() {
                        Some(from) => {
                            lemma_calm_reload(
                                m.with_effect(
                                    crate::session::EffectModel::Rename(
                                        crate::session::RenamingModel {
                                            from,
                                            to: ManagerModel::rename_target(from, input),
                                        },
                                    ),
                                ).in_mode(crate::mode::ModeModel::Normal),
                            );
                        },
                        None => {
                            lemma_calm_reload(m.in_mode(crate::mode::ModeModel::Normal));
                        },
                    }
                },
                _ => {},
            }
        },
        _ => {},
    }
}

/// A turn on an event of the terminal, taken while no question is open, and
/// a turn on the answer to the open question end with exactly the question
/// open that they ask: the manager never waits for an answer that it has
/// not asked for, and never asks without recording what it waits for.
pub proof fn lemma_question_is_recorded(m: ManagerModel, message: crate::session::MessageModel)
    requires
        match message {
            crate::session::MessageModel::Terminal(_) => m.pending is Idle,
            crate::session::MessageModel::Answer(answer) => answers(m.pending, answer),
            _ => false,
        },
    ensures
        asks_what_is_open(m.ran(message)),
{
    match message {
        crate::session::MessageModel::Terminal(event) => {
            lemma_open_event(m, event);
        },
        crate::session::MessageModel::Answer(answer) => {
            lemma_open_answer(m, answer);
        },
        _ => {},
    }
}

/// Anything but the answer to the open question leaves the question open:
/// a loaded panel, a log line, an event of the terminal or another answer
/// neither answers nor replaces it.
pub proof fn lemma_question_stays_open(m: ManagerModel, message: crate::session::MessageModel)
    requires
        !(m.pending is Idle),
        match message {
            crate::session::MessageModel::Answer(answer) => !answers(m.pending, answer),
            _ => true,
        },
    ensures
        m.ran(message).state.pending == m.pending,
        !(m.ran(message).next is Ask),
{
    match message {
        crate::session::MessageModel::Directory(panel, state) => {
            lemma_calm_cursor(m.center_updated(panel), 1);
        },
        _ => {},
    }
}

} // verus!
