//! What a message does to the manager: the keys in each mode, the commands
//! of normal mode, the questions that are asked on the way, and the turn of
//! the event loop that ties them together.

use vstd::prelude::*;
use crate::directory::PanelModel;
use crate::event::CommandModel;
use crate::event::ConsoleKey;
use crate::event::Event;
use crate::event::KeyCode;
use crate::event::MoveModel;
use crate::layout::MillerColumns;
use crate::manager::ManagerModel;
use crate::mode::ClipboardModel;
use crate::mode::ModeModel;
use crate::path::display_name;
use crate::path::file_name_of;
use crate::path::joined_path;
use crate::path::parent_of;
use crate::path::renamed_path;
use crate::preview::PreviewModel;
use crate::redraw::Redraw;
use crate::session::After;
use crate::session::AnswerModel;
use crate::session::EffectModel;
use crate::session::Level;
use crate::session::MessageModel;
use crate::session::NextModel;
use crate::session::PendingModel;
use crate::session::QuestionModel;
use crate::session::RenamingModel;
use crate::slot::StateModel;
use crate::text::ascii_lower;
use crate::text::decimal;
use crate::text::joined;
use crate::text::lines_of;
use crate::text::trimmed;
use crate::text::without_outer_newlines;

verus! {

/// The outcome of a turn: the manager after it, and what comes next.
pub struct Turn {
    pub state: ManagerModel,
    pub next: NextModel,
}

/// A text without its last character, as far as it has one.
pub open spec fn popped(s: Seq<char>) -> Seq<char> {
    if s.len() > 0 {
        s.drop_last()
    } else {
        s
    }
}

/// An input text after a key has edited it: a character is appended, the
/// backspace key takes the last character, any other key changes nothing.
pub open spec fn edited_by(input: Seq<char>, key: KeyCode) -> Seq<char> {
    match key {
        KeyCode::Char(c) => input.push(c),
        KeyCode::Backspace => popped(input),
        _ => input,
    }
}

/// A search text after a key has edited it: as any input, but a character
/// is appended in lowercase.
pub open spec fn search_edited_by(input: Seq<char>, key: KeyCode) -> Seq<char> {
    match key {
        KeyCode::Char(c) => input.push(ascii_lower(c)),
        KeyCode::Backspace => popped(input),
        _ => input,
    }
}

/// The log line about `count` items: `before`, the number, ` items`.
pub open spec fn items_text(before: Seq<char>, count: nat) -> Seq<char> {
    before + decimal(count) + " items"@
}

/// The log line about a path that is opened.
pub open spec fn opening_text(path: Seq<char>) -> Seq<char> {
    "Opening '"@ + path + "'"@
}

/// The log line about a bulk rename whose file has the wrong number of
/// lines.
pub open spec fn line_count_text(lines: nat, files: nat) -> Seq<char> {
    "Bulkrename file has "@ + decimal(lines) + " lines, but "@ + decimal(files)
        + " files should be renamed."@
}

/// The log line about a bulk rename that would overwrite a path.
pub open spec fn collision_text() -> Seq<char> {
    "Bulkrename wants to rename a path to an already existing path."@
}

/// The log line about a completion that no slot accepts.
pub open spec fn unknown_update_text() -> Seq<char> {
    "unknown panel update"@
}

/// The names under which the paths are shown.
pub open spec fn names_of(paths: Seq<Seq<char>>) -> Seq<Seq<char>> {
    Seq::new(paths.len(), |i: int| display_name(paths[i]))
}

/// The paths of `sources`, each with the name at its place in `names` for its
/// last component.
pub open spec fn renamed_all(sources: Seq<Seq<char>>, names: Seq<Seq<char>>) -> Seq<Seq<char>> {
    Seq::new(sources.len(), |i: int| renamed_path(sources[i], names[i]))
}

/// The renamings of each path of `sources` to the path at its place in
/// `targets`.
pub open spec fn renamings(sources: Seq<Seq<char>>, targets: Seq<Seq<char>>) -> Seq<RenamingModel> {
    Seq::new(
        if sources.len() <= targets.len() {
            sources.len()
        } else {
            targets.len()
        },
        |i: int| RenamingModel { from: sources[i], to: targets[i] },
    )
}

impl ManagerModel {
    /// The turn that ends here with nothing to ask.
    pub open spec fn goes_on(self) -> Turn {
        Turn { state: self, next: NextModel::Continue }
    }

    /// The turn that ends here with a question.
    pub open spec fn asking(self, pending: PendingModel, question: QuestionModel) -> Turn {
        Turn { state: ManagerModel { pending, ..self }, next: NextModel::Ask(question) }
    }

    /// The manager with no question open.
    pub open spec fn settled(self) -> ManagerModel {
        ManagerModel { pending: PendingModel::Idle, ..self }
    }

    /// The manager in the mode `mode`.
    pub open spec fn in_mode(self, mode: ModeModel) -> ManagerModel {
        ManagerModel { mode, ..self }
    }

    /// The manager after the left slot has asked again for its panel.
    pub open spec fn left_reloaded(self) -> ManagerModel {
        let left = self.left.advanced();
        ManagerModel { left, ..self }.with_directory_request(left.request(false))
    }

    /// The manager after the center slot has asked again for its panel.
    pub open spec fn center_reloaded(self) -> ManagerModel {
        let center = self.center.advanced();
        ManagerModel { center, ..self }.with_directory_request(center.request(false))
    }

    /// The manager after the right slot has asked again for its panel.
    pub open spec fn right_reloaded(self) -> ManagerModel {
        let right = self.right.advanced();
        ManagerModel { right, ..self }.with_preview_request(right.request(false))
    }

    /// The manager after all three slots have asked again for their panels.
    pub open spec fn all_reloaded(self) -> ManagerModel {
        self.left_reloaded().center_reloaded().right_reloaded()
    }

    /// The manager with the center slot frozen or not.
    pub open spec fn center_frozen(self, frozen: bool) -> ManagerModel {
        ManagerModel { center: self.center.with_frozen(frozen), ..self }
    }

    /// What the escape key does before the key is handled in normal mode:
    /// the mode is normal, the key buffer and the search are cleared, and
    /// every mark is taken away.
    pub open spec fn escaped(self) -> ManagerModel {
        self.in_mode(ModeModel::Normal).with_effect(EffectModel::ClearKeys).center_showing(
            self.center.panel.search_cleared(),
        ).marking(Redraw::panels()).marking(Redraw::footer_only()).all_unmarked()
    }

    /// What follows a jump.
    pub open spec fn after_jump(self, after: After) -> Turn {
        match after {
            After::Nothing => self.goes_on(),
            After::Console => self.marking(Redraw::console_only()).goes_on(),
            After::Escape => self.escaped().key_in_mode(KeyCode::Esc),
        }
    }

    /// A jump to `path` begins: where `path` is the path of the center
    /// panel there is nothing to do; otherwise it is asked whether `path`
    /// exists.
    pub open spec fn jump_asked(self, path: Seq<char>, after: After) -> Turn {
        if path == self.center.panel.path {
            self.after_jump(after)
        } else {
            self.asking(PendingModel::Jump { path, after }, QuestionModel::Exists(path))
        }
    }

    /// A move to the right begins: it is asked whether the selected entry
    /// is a directory. Nothing happens where no entry is selected.
    pub open spec fn right_asked(self) -> Turn {
        match self.center.panel.selected_path() {
            Some(path) => self.asking(PendingModel::Enter { path }, QuestionModel::IsDir(path)),
            None => self.goes_on(),
        }
    }

    /// The move to the right goes on: a directory is entered; anything else
    /// is opened while the center slot is frozen.
    pub open spec fn entered(self, selected: Seq<char>, is_dir: bool) -> Turn {
        if is_dir {
            self.moved_into().goes_on()
        } else {
            self.with_effect(EffectModel::Log(Level::Info, opening_text(selected))).center_frozen(
                true,
            ).asking(PendingModel::Open, QuestionModel::Open(selected))
        }
    }

    /// The opener has returned: the freeze ends, everything is drawn again,
    /// left and right lose their marks.
    pub open spec fn opened(self) -> ManagerModel {
        self.center_frozen(false).marking(Redraw::everything()).left_right_unmarked()
    }

    /// What a move does.
    pub open spec fn cursor_moved(self, movement: MoveModel) -> Turn {
        match movement {
            MoveModel::Up => self.moved_up(1).goes_on(),
            MoveModel::Down => self.moved_down(1).goes_on(),
            MoveModel::Left => self.moved_left().goes_on(),
            MoveModel::Right => self.right_asked(),
            MoveModel::Top => self.moved_up(usize::MAX as nat).goes_on(),
            MoveModel::Bottom => self.moved_down(usize::MAX as nat).goes_on(),
            MoveModel::HalfPageForward => self.moved_down(self.layout.rows() / 2).goes_on(),
            MoveModel::HalfPageBackward => self.moved_up(self.layout.rows() / 2).goes_on(),
            MoveModel::PageForward => self.moved_down(self.layout.rows()).goes_on(),
            MoveModel::PageBackward => self.moved_up(self.layout.rows()).goes_on(),
            MoveModel::JumpTo(path) => self.jump_asked(path, After::Nothing),
            MoveModel::JumpPrevious => self.jump_asked(self.previous, After::Nothing),
        }
    }

    /// The bulk rename of `paths` begins: the center slot is frozen, and the
    /// user is given the names to edit, one on each line.
    pub open spec fn bulk_started(self, paths: Seq<Seq<char>>) -> Turn {
        self.center_frozen(true).asking(
            PendingModel::Edit { sources: paths },
            QuestionModel::Edit(joined(names_of(paths), "\n"@)),
        )
    }

    /// The bulk rename ends: the file of names is discarded, the freeze
    /// ends, and everything is drawn again.
    pub open spec fn bulk_finished(self) -> ManagerModel {
        self.with_effect(EffectModel::Discard).center_frozen(false).marking(Redraw::everything())
    }

    /// The user has edited the names: where the editor could not be run the
    /// bulk rename ends; where the number of lines is not the number of
    /// paths it ends with an error in the log; otherwise it is asked
    /// whether any of the new paths exists.
    pub open spec fn edited(self, sources: Seq<Seq<char>>, text: Option<Seq<char>>) -> Turn {
        match text {
            None => self.bulk_finished().goes_on(),
            Some(t) => {
                let names = lines_of(without_outer_newlines(t));
                if names.len() != sources.len() {
                    self.with_effect(
                        EffectModel::Log(Level::Error, line_count_text(names.len(), sources.len())),
                    ).bulk_finished().goes_on()
                } else {
                    let targets = renamed_all(sources, names);
                    self.asking(
                        PendingModel::Collide { sources, targets },
                        QuestionModel::AnyExists(targets),
                    )
                }
            },
        }
    }

    /// It is known whether a new path exists: if one does, the bulk rename
    /// ends with an error in the log and nothing is renamed; otherwise
    /// every path is renamed.
    pub open spec fn collided(
        self,
        sources: Seq<Seq<char>>,
        targets: Seq<Seq<char>>,
        any: bool,
    ) -> ManagerModel {
        if any {
            self.with_effect(EffectModel::Log(Level::Error, collision_text())).bulk_finished()
        } else {
            self.with_effect(EffectModel::RenameAll(renamings(sources, targets))).bulk_finished()
        }
    }

    /// The rename command: one chosen path with a name is renamed in rename
    /// mode; more than one are renamed in bulk.
    pub open spec fn rename_started(self) -> Turn {
        let paths = self.chosen();
        let chosen = self.after_choice();
        if paths.len() == 1 {
            match file_name_of(paths[0]) {
                Some(name) => chosen.in_mode(ModeModel::Rename { input: name }).marking(
                    Redraw::footer_only(),
                ).goes_on(),
                None => chosen.goes_on(),
            }
        } else if paths.len() > 1 {
            chosen.bulk_started(paths)
        } else {
            chosen.goes_on()
        }
    }

    /// The cut and copy commands: the chosen paths are put into the
    /// clipboard.
    pub open spec fn clipped(self, cut: bool) -> ManagerModel {
        let files = self.chosen();
        ManagerModel {
            clipboard: Some(ClipboardModel { files, cut }),
            ..self.after_choice().with_effect(
                EffectModel::Log(
                    Level::Info,
                    items_text(if cut { "cut "@ } else { "copying "@ }, files.len()),
                ),
            )
        }
    }

    /// The delete command: the chosen paths go to the trash, every mark is
    /// taken away, and all panels are loaded again.
    pub open spec fn deleted(self) -> ManagerModel {
        let files = self.chosen();
        self.after_choice().with_effect(
            EffectModel::Log(Level::Info, items_text("Deleted "@, files.len())),
        ).all_unmarked().with_effect(EffectModel::Trash(files)).all_reloaded()
    }

    /// The paste command: every mark is taken away, the clipboard is
    /// emptied into the current directory, and all panels are loaded again.
    pub open spec fn pasted(self, overwrite: bool) -> ManagerModel {
        let unmarked = self.all_unmarked();
        let emptied = match unmarked.clipboard {
            Some(clipboard) => ManagerModel { clipboard: None, ..unmarked }.with_effect(
                EffectModel::Paste {
                    files: clipboard.files,
                    cut: clipboard.cut,
                    target: unmarked.center.panel.path,
                    overwrite,
                },
            ),
            None => unmarked,
        };
        emptied.all_reloaded().marking(Redraw::panels())
    }

    /// What a command does.
    pub open spec fn commanded(self, command: CommandModel) -> Turn {
        match command {
            CommandModel::Move(movement) => self.cursor_moved(movement),
            CommandModel::ViewTrash => self.jump_asked(self.trash_dir, After::Nothing),
            CommandModel::ToggleHidden => self.hidden_toggled().goes_on(),
            CommandModel::ToggleLog => self.log_toggled().goes_on(),
            CommandModel::Cd => ManagerModel {
                pre_console_path: self.center.panel.path,
                ..self
            }.in_mode(ModeModel::Console).with_effect(EffectModel::OpenConsole).marking(
                Redraw::console_only(),
            ).goes_on(),
            CommandModel::Search => self.in_mode(ModeModel::Search { input: Seq::empty() }).marking(
                Redraw::footer_only(),
            ).goes_on(),
            CommandModel::Rename => self.rename_started(),
            CommandModel::Next => self.center_showing(
                self.center.panel.next_marked(),
            ).selection_changed().goes_on(),
            CommandModel::Previous => self.center_showing(
                self.center.panel.prev_marked(),
            ).selection_changed().goes_on(),
            CommandModel::Mkdir => self.in_mode(
                ModeModel::CreateItem { input: Seq::empty(), is_dir: true },
            ).marking(Redraw::footer_only()).goes_on(),
            CommandModel::Touch => self.in_mode(
                ModeModel::CreateItem { input: Seq::empty(), is_dir: false },
            ).marking(Redraw::footer_only()).goes_on(),
            CommandModel::Mark => self.mark_added().goes_on(),
            CommandModel::Cut => self.clipped(true).goes_on(),
            CommandModel::Copy => self.clipped(false).goes_on(),
            CommandModel::Delete => self.deleted().goes_on(),
            CommandModel::Paste { overwrite } => self.pasted(overwrite).goes_on(),
            CommandModel::Quit => Turn { state: self, next: NextModel::Quit },
            CommandModel::Incomplete => self.marking(Redraw::footer_only()).goes_on(),
        }
    }

    /// What a key does in console mode: the console overlay is asked where
    /// the key leads; the enter key commits and goes back to normal mode.
    pub open spec fn console_key(self, key: KeyCode) -> Turn {
        match key {
            KeyCode::Backspace => self.asking(
                PendingModel::Console,
                QuestionModel::Console(ConsoleKey::Delete),
            ),
            KeyCode::Enter => self.in_mode(ModeModel::Normal).marking(Redraw::panels()).goes_on(),
            KeyCode::Tab => self.asking(
                PendingModel::Console,
                QuestionModel::Console(ConsoleKey::Tab),
            ),
            KeyCode::BackTab => self.asking(
                PendingModel::Console,
                QuestionModel::Console(ConsoleKey::BackTab),
            ),
            KeyCode::Char(c) => self.asking(
                PendingModel::Console,
                QuestionModel::Console(ConsoleKey::Insert(c)),
            ),
            _ => self.goes_on(),
        }
    }

    /// The console overlay has answered: where the key led to a path, the
    /// manager jumps there; the overlay is drawn again either way.
    pub open spec fn console_answered(self, path: Option<Seq<char>>) -> Turn {
        match path {
            Some(p) => self.jump_asked(p, After::Console),
            None => self.marking(Redraw::console_only()).goes_on(),
        }
    }

    /// What a key does while the name of a new item is typed.
    pub open spec fn create_key(self, key: KeyCode, input: Seq<char>, is_dir: bool) -> ManagerModel {
        match key {
            KeyCode::Backspace => self.in_mode(
                ModeModel::CreateItem { input: popped(input), is_dir },
            ).marking(Redraw::footer_only()),
            KeyCode::Enter => self.with_effect(
                EffectModel::Create {
                    path: joined_path(self.center.panel.path, trimmed(input)),
                    is_dir,
                },
            ).in_mode(ModeModel::Normal).marking(Redraw::panels()),
            KeyCode::Tab => self.marking(Redraw::footer_only()),
            KeyCode::Char(c) => self.in_mode(
                ModeModel::CreateItem { input: input.push(c), is_dir },
            ).marking(Redraw::footer_only()),
            _ => self,
        }
    }

    /// What a key does while a search text is typed: the enter key commits
    /// the search and goes to the next match; any other key edits the text
    /// and marks the matches.
    pub open spec fn search_key(self, key: KeyCode, input: Seq<char>) -> ManagerModel {
        if key == KeyCode::Enter {
            self.center_showing(
                self.center.panel.search_finished(input).next_marked(),
            ).preview_requested().in_mode(ModeModel::Normal).marking(
                Redraw::center_change(),
            ).marking(Redraw::right_change())
        } else {
            let text = search_edited_by(input, key);
            self.in_mode(ModeModel::Search { input: text }).center_showing(
                self.center.panel.searching(text),
            ).marking(Redraw::center_change())
        }
    }

    /// The path that the selected entry `from` gets when it is renamed to
    /// `name`: `name` in the parent of `from`; the empty path where `from`
    /// has no parent.
    pub open spec fn rename_target(from: Seq<char>, name: Seq<char>) -> Seq<char> {
        match parent_of(from) {
            Some(parent) => joined_path(parent, name),
            None => Seq::empty(),
        }
    }

    /// What a key does while a new name is typed: the enter key renames the
    /// selected entry and loads center and right again; any other key edits
    /// the name.
    pub open spec fn rename_key(self, key: KeyCode, input: Seq<char>) -> ManagerModel {
        if key == KeyCode::Enter {
            let renamed = match self.center.panel.selected_path() {
                Some(from) => self.with_effect(
                    EffectModel::Rename(
                        RenamingModel { from, to: ManagerModel::rename_target(from, input) },
                    ),
                ),
                None => self,
            };
            renamed.in_mode(ModeModel::Normal).center_reloaded().right_reloaded().marking(
                Redraw::panels(),
            )
        } else {
            self.in_mode(ModeModel::Rename { input: edited_by(input, key) }).marking(
                Redraw::center_change(),
            )
        }
    }

    /// What a key does in the mode that the manager is in.
    pub open spec fn key_in_mode(self, key: KeyCode) -> Turn {
        match self.mode {
            ModeModel::Normal => self.asking(PendingModel::Command, QuestionModel::Command(key)),
            ModeModel::Console => self.console_key(key),
            ModeModel::CreateItem { input, is_dir } => self.create_key(key, input, is_dir).goes_on(),
            ModeModel::Search { input } => self.search_key(key, input).goes_on(),
            ModeModel::Rename { input } => self.rename_key(key, input).goes_on(),
        }
    }

    /// What a key does: the escape key first leaves the mode, in console
    /// mode after a jump back to where the console was opened; then the key
    /// is handled in the mode that the manager is in.
    pub open spec fn key_pressed(self, key: KeyCode) -> Turn {
        if key == KeyCode::Esc {
            if self.mode is Console {
                self.jump_asked(self.pre_console_path, After::Escape)
            } else {
                self.escaped().key_in_mode(key)
            }
        } else {
            self.key_in_mode(key)
        }
    }

    /// What an event of the terminal does.
    pub open spec fn event_handled(self, event: Event) -> Turn {
        match event {
            Event::Key(key) => self.key_pressed(key),
            Event::Resize(width, height) => ManagerModel {
                layout: MillerColumns::of_size(width, height),
                ..self
            }.marking(Redraw::everything()).goes_on(),
            Event::Other => self.goes_on(),
        }
    }

    /// What an answer does: the answer to the open question lets the
    /// manager go on where it stopped; any other answer changes nothing.
    pub open spec fn answered(self, answer: AnswerModel) -> Turn {
        match (self.pending, answer) {
            (PendingModel::Command, AnswerModel::Command(command)) => self.settled().commanded(
                command,
            ),
            (PendingModel::Console, AnswerModel::Console(path)) => self.settled().console_answered(
                path,
            ),
            (PendingModel::Jump { path, after }, AnswerModel::Exists(exists)) => self.settled().jumped(
                path,
                exists,
            ).after_jump(after),
            (PendingModel::Enter { path }, AnswerModel::IsDir(is_dir)) => self.settled().entered(
                path,
                is_dir,
            ),
            (PendingModel::Open, AnswerModel::Opened) => self.settled().opened().goes_on(),
            (PendingModel::Edit { sources }, AnswerModel::Edited(text)) => self.settled().edited(
                sources,
                text,
            ),
            (
                PendingModel::Collide { sources, targets },
                AnswerModel::Exists(any),
            ) => self.settled().collided(sources, targets, any).goes_on(),
            _ => self.goes_on(),
        }
    }

    /// What a loaded directory panel does: the center slot takes it if the
    /// state is its own, else the left slot if the state is its own; a
    /// panel that neither takes is dropped.
    pub open spec fn directory_loaded(self, panel: PanelModel, state: StateModel) -> ManagerModel {
        if self.center.accepts(state) {
            self.center_updated(panel).preview_requested().marking(Redraw::center_change()).marking(
                Redraw::right_change(),
            ).marking(Redraw::console_only())
        } else if self.left.accepts(state) {
            let updated = self.left_updated(panel);
            updated.left_showing(updated.left.panel.with_selected(updated.center.panel.path)).marking(
                Redraw::left_change(),
            ).marking(Redraw::console_only())
        } else {
            self.with_effect(EffectModel::Log(Level::Error, unknown_update_text()))
        }
    }

    /// What a loaded preview does: the right slot takes it if the state is
    /// its own; otherwise it is dropped.
    pub open spec fn preview_loaded(self, panel: PreviewModel, state: StateModel) -> ManagerModel {
        if self.right.accepts(state) {
            self.right_updated(panel).marking(Redraw::right_change()).marking(
                Redraw::console_only(),
            )
        } else {
            self
        }
    }

    /// What one turn of the event loop does with a message.
    pub open spec fn ran(self, message: MessageModel) -> Turn {
        match message {
            MessageModel::Log => self.marking(Redraw::log_only()).goes_on(),
            MessageModel::Directory(panel, state) => self.directory_loaded(panel, state).goes_on(),
            MessageModel::Preview(panel, state) => self.preview_loaded(panel, state).goes_on(),
            MessageModel::Terminal(event) => if self.pending is Idle {
                self.event_handled(event)
            } else {
                self.goes_on()
            },
            MessageModel::Answer(answer) => self.answered(answer),
            MessageModel::Closed => Turn { state: self, next: NextModel::Quit },
        }
    }
}

} // verus!
