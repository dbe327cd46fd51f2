//! One turn of the event loop: a message comes in, the manager changes, and
//! either the turn is over or a question goes out.

use vstd::prelude::*;
use vstd::string::*;
use crate::event::Command;
use crate::event::ConsoleKey;
use crate::event::Event;
use crate::event::KeyCode;
use crate::event::Move;
use crate::input::edited_by;
use crate::input::items_text;
use crate::input::line_count_text;
use crate::input::names_of;
use crate::input::opening_text;
use crate::input::renamed_all;
use crate::input::renamings;
use crate::input::search_edited_by;
use crate::layout::MillerColumns;
use crate::manager::PanelManager;
use crate::mode::Clipboard;
use crate::mode::Mode;
use crate::mode::ModeModel;
use crate::session::renaming_views;
use crate::session::After;
use crate::session::Answer;
use crate::session::Effect;
use crate::session::Level;
use crate::session::Message;
use crate::session::Next;
use crate::session::Pending;
use crate::session::Question;
use crate::session::Renaming;
use crate::text::copy_texts;
use crate::text::owned;
use crate::text::push_decimal;
use crate::text::to_ascii_lower;
use crate::text::views;

verus! {

/// The log line about `count` items.
fn items_line(before: &str, count: usize) -> (line: String)
    ensures
        line@ == items_text(before@, count as nat),
{
    let mut line = before.to_owned();
    push_decimal(&mut line, count as u64);
    line.append(" items");
    line
}

/// The log line about a path that is opened.
fn opening_line(path: &String) -> (line: String)
    ensures
        line@ == opening_text(path@),
{
    let mut line = "Opening '".to_owned();
    line.append(path.as_str());
    line.append("'");
    line
}

/// The log line about a bulk rename whose file has the wrong number of lines.
fn line_count_line(lines: usize, files: usize) -> (line: String)
    ensures
        line@ == line_count_text(lines as nat, files as nat),
{
    let mut line = "Bulkrename file has ".to_owned();
    push_decimal(&mut line, lines as u64);
    line.append(" lines, but ");
    push_decimal(&mut line, files as u64);
    line.append(" files should be renamed.");
    line
}

/// An input text after a key has edited it.
fn edit_input(input: &mut String, key: KeyCode)
    ensures
        final(input)@ == edited_by(old(input)@, key),
{
    match key {
        KeyCode::Char(c) => {
            input.push(c);
        },
        KeyCode::Backspace => {
            input.pop();
        },
        _ => {},
    }
}

/// A search text after a key has edited it.
fn edit_search(input: &mut String, key: KeyCode)
    ensures
        final(input)@ == search_edited_by(old(input)@, key),
{
    match key {
        KeyCode::Char(c) => {
            input.push(to_ascii_lower(c));
        },
        KeyCode::Backspace => {
            input.pop();
        },
        _ => {},
    }
}

/// The names under which the paths are shown.
fn shown_names(paths: &Vec<String>) -> (names: Vec<String>)
    ensures
        views(names@) == names_of(views(paths@)),
{
    let mut names: Vec<String> = Vec::new();
    let mut i: usize = 0;
    while i < paths.len()
        invariant
            i <= paths.len(),
            names.len() == i,
            forall|j: int| 0 <= j < i ==> names[j]@ == crate::path::display_name(paths[j]@),
        decreases paths.len() - i,
    {
        names.push(crate::path::shown_name(paths[i].as_str()));
        i += 1;
    }
    assert(views(names@) =~= names_of(views(paths@)));
    names
}

/// The paths of `sources`, each with the name at its place in `names` for its
/// last component.
fn rename_all(sources: &Vec<String>, names: &Vec<String>) -> (targets: Vec<String>)
    requires
        sources.len() == names.len(),
    ensures
        views(targets@) == renamed_all(views(sources@), views(names@)),
{
    let mut targets: Vec<String> = Vec::new();
    let mut i: usize = 0;
    while i < sources.len()
        invariant
            i <= sources.len(),
            sources.len() == names.len(),
            targets.len() == i,
            forall|j: int|
                0 <= j < i ==> targets[j]@ == crate::path::renamed_path(sources[j]@, names[j]@),
        decreases sources.len() - i,
    {
        targets.push(crate::path::with_file_name(sources[i].as_str(), names[i].as_str()));
        i += 1;
    }
    assert(views(targets@) =~= renamed_all(views(sources@), views(names@)));
    targets
}

/// The renamings of each path of `sources` to the path at its place in
/// `targets`.
fn pair_up(sources: Vec<String>, targets: Vec<String>) -> (pairs: Vec<Renaming>)
    ensures
        renaming_views(pairs@) == renamings(views(sources@), views(targets@)),
{
    let count = if sources.len() <= targets.len() {
        sources.len()
    } else {
        targets.len()
    };
    let mut pairs: Vec<Renaming> = Vec::new();
    let mut i: usize = 0;
    while i < count
        invariant
            i <= count,
            count <= sources.len(),
            count <= targets.len(),
            pairs.len() == i,
            forall|j: int|
                0 <= j < i ==> pairs[j].from@ == sources[j]@ && pairs[j].to@ == targets[j]@,
        decreases count - i,
    {
        pairs.push(Renaming { from: sources[i].clone(), to: targets[i].clone() });
        i += 1;
    }
    assert(renaming_views(pairs@) =~= renamings(views(sources@), views(targets@)));
    pairs
}

impl PanelManager {
    /// Ends the turn with a question.
    fn ask(&mut self, pending: Pending, question: Question) -> (next: Next)
        requires
            old(self).wf(),
        ensures
            final(self).wf(),
            final(self)@ == old(self)@.asking(pending@, question@).state,
            next@ == old(self)@.asking(pending@, question@).next,
    {
        self.pending = pending;
        Next::Ask(question)
    }

    /// Asks again for the panels of all three slots.
    fn reload_all(&mut self)
        requires
            old(self).wf(),
        ensures
            final(self).wf(),
            final(self)@ == old(self)@.all_reloaded(),
    {
        let request = self.left.reload();
        self.emit_directory(request);
        let request = self.center.reload();
        self.emit_directory(request);
        let request = self.right.reload();
        self.emit_preview(request);
    }

    /// What the escape key does before the key is handled in normal mode.
    fn escape(&mut self)
        requires
            old(self).wf(),
        ensures
            final(self).wf(),
            final(self)@ == old(self)@.escaped(),
    {
        self.mode = Mode::Normal;
        self.emit(Effect::ClearKeys);
        self.center.panel.clear_search();
        self.redraw_panels();
        self.redraw_footer();
        self.unmark_all_items();
    }

    /// What follows a jump.
    fn after_jump(&mut self, after: After) -> (next: Next)
        requires
            old(self).wf(),
        ensures
            final(self).wf(),
            final(self)@ == old(self)@.after_jump(after).state,
            next@ == old(self)@.after_jump(after).next,
    {
        match after {
            After::Nothing => Next::Continue,
            After::Console => {
                self.redraw_console();
                Next::Continue
            },
            After::Escape => {
                self.escape();
                self.ask(Pending::Command, Question::Command(KeyCode::Esc))
            },
        }
    }

    /// Begins a jump to `path`: where `path` is not the path of the center
    /// panel, it is asked whether `path` exists.
    fn ask_jump(&mut self, path: String, after: After) -> (next: Next)
        requires
            old(self).wf(),
        ensures
            final(self).wf(),
            final(self)@ == old(self)@.jump_asked(path@, after).state,
            next@ == old(self)@.jump_asked(path@, after).next,
    {
        if path == *self.center.panel.path() {
            self.after_jump(after)
        } else {
            let question = Question::Exists(path.clone());
            self.ask(Pending::Jump { path, after }, question)
        }
    }

    /// Begins a move to the right: it is asked whether the selected entry is
    /// a directory. Nothing happens where no entry is selected.
    pub fn move_right(&mut self) -> (next: Next)
        requires
            old(self).wf(),
        ensures
            final(self).wf(),
            final(self)@ == old(self)@.right_asked().state,
            next@ == old(self)@.right_asked().next,
    {
        match owned(self.center.panel.selected_path()) {
            Some(path) => {
                let question = Question::IsDir(path.clone());
                self.ask(Pending::Enter { path }, question)
            },
            None => Next::Continue,
        }
    }

    /// Goes on with a move to the right onto `selected`, of which `is_dir`
    /// says whether it is a directory: a directory is entered; anything
    /// else is handed to the opener, with the center slot frozen until the
    /// opener has returned.
    pub fn enter(&mut self, selected: String, is_dir: bool) -> (next: Next)
        requires
            old(self).wf(),
        ensures
            final(self).wf(),
            final(self)@ == old(self)@.entered(selected@, is_dir).state,
            next@ == old(self)@.entered(selected@, is_dir).next,
    {
        if is_dir {
            self.move_into();
            Next::Continue
        } else {
            self.emit(Effect::Log(Level::Info, opening_line(&selected)));
            self.center.freeze();
            self.ask(Pending::Open, Question::Open(selected))
        }
    }

    /// The opener has returned: the freeze ends, everything is drawn again,
    /// and left and right lose their marks.
    pub fn opened(&mut self)
        requires
            old(self).wf(),
        ensures
            final(self).wf(),
            final(self)@ == old(self)@.opened(),
    {
        self.center.unfreeze();
        self.redraw_everything();
        self.unmark_left_right();
    }

    /// Carries out a move.
    pub fn move_cursor(&mut self, movement: Move) -> (next: Next)
        requires
            old(self).wf(),
        ensures
            final(self).wf(),
            final(self)@ == old(self)@.cursor_moved(movement@).state,
            next@ == old(self)@.cursor_moved(movement@).next,
    {
        match movement {
            Move::Up => {
                self.move_up(1);
                Next::Continue
            },
            Move::Down => {
                self.move_down(1);
                Next::Continue
            },
            Move::Left => {
                self.move_left();
                Next::Continue
            },
            Move::Right => self.move_right(),
            Move::Top => {
                self.move_up(usize::MAX);
                Next::Continue
            },
            Move::Bottom => {
                self.move_down(usize::MAX);
                Next::Continue
            },
            Move::HalfPageForward => {
                let rows = self.layout.height();
                self.move_down((rows / 2) as usize);
                Next::Continue
            },
            Move::HalfPageBackward => {
                let rows = self.layout.height();
                self.move_up((rows / 2) as usize);
                Next::Continue
            },
            Move::PageForward => {
                let rows = self.layout.height();
                self.move_down(rows as usize);
                Next::Continue
            },
            Move::PageBackward => {
                let rows = self.layout.height();
                self.move_up(rows as usize);
                Next::Continue
            },
            Move::JumpTo(path) => self.ask_jump(path, After::Nothing),
            Move::JumpPrevious => {
                let path = self.previous.clone();
                self.ask_jump(path, After::Nothing)
            },
        }
    }
}

/// Begins the bulk rename of `old_paths`: the center slot is frozen while the
/// user edits the names, one on each line.
pub fn bulkrename(mgr: &mut PanelManager, old_paths: Vec<String>) -> (next: Next)
    requires
        old(mgr).wf(),
    ensures
        final(mgr).wf(),
        final(mgr)@ == old(mgr)@.bulk_started(views(old_paths@)).state,
        next@ == old(mgr)@.bulk_started(views(old_paths@)).next,
{
    let names = shown_names(&old_paths);
    let text = crate::text::join(&names, "\n");
    mgr.center.freeze();
    mgr.ask(Pending::Edit { sources: old_paths }, Question::Edit(text))
}

impl PanelManager {
    /// Ends a bulk rename: the file of names is discarded, the freeze ends,
    /// and everything is drawn again.
    fn finish_bulkrename(&mut self)
        requires
            old(self).wf(),
        ensures
            final(self).wf(),
            final(self)@ == old(self)@.bulk_finished(),
    {
        self.emit(Effect::Discard);
        self.center.unfreeze();
        self.redraw_everything();
    }

    /// Goes on with the bulk rename of `sources` once the user has edited
    /// the names: `text` is what the user left, or nothing where the editor
    /// could not be run. Unless the number of lines is that of the paths,
    /// nothing is renamed.
    pub fn edited(&mut self, sources: Vec<String>, text: Option<String>) -> (next: Next)
        requires
            old(self).wf(),
        ensures
            final(self).wf(),
            final(self)@ == old(self)@.edited(views(sources@), crate::text::opt_view(text)).state,
            next@ == old(self)@.edited(views(sources@), crate::text::opt_view(text)).next,
    {
        match text {
            None => {
                self.finish_bulkrename();
                Next::Continue
            },
            Some(t) => {
                let stripped = crate::text::trim_newlines(t.as_str());
                let names = crate::text::lines(stripped.as_str());
                if names.len() != sources.len() {
                    self.emit(
                        Effect::Log(Level::Error, line_count_line(names.len(), sources.len())),
                    );
                    self.finish_bulkrename();
                    Next::Continue
                } else {
                    let targets = rename_all(&sources, &names);
                    let question = Question::AnyExists(copy_texts(&targets));
                    self.ask(Pending::Collide { sources, targets }, question)
                }
            },
        }
    }

    /// Ends the bulk rename of `sources` to `targets`, of which `any` says
    /// whether one exists already: if one does, nothing is renamed.
    pub fn collided(&mut self, sources: Vec<String>, targets: Vec<String>, any: bool)
        requires
            old(self).wf(),
        ensures
            final(self).wf(),
            final(self)@ == old(self)@.collided(views(sources@), views(targets@), any),
    {
        if any {
            self.emit(
                Effect::Log(
                    Level::Error,
                    "Bulkrename wants to rename a path to an already existing path.".to_owned(),
                ),
            );
        } else {
            self.emit(Effect::RenameAll(pair_up(sources, targets)));
        }
        self.finish_bulkrename();
    }

    /// The rename command.
    fn start_rename(&mut self) -> (next: Next)
        requires
            old(self).wf(),
        ensures
            final(self).wf(),
            final(self)@ == old(self)@.rename_started().state,
            next@ == old(self)@.rename_started().next,
    {
        let paths = self.marked_or_selected();
        if paths.len() == 1 {
            assert(views(paths@)[0] == paths[0]@);
            match crate::path::file_name(paths[0].as_str()) {
                Some(input) => {
                    self.mode = Mode::Rename { input };
                    self.redraw_footer();
                },
                None => {},
            }
            Next::Continue
        } else if paths.len() > 1 {
            bulkrename(self, paths)
        } else {
            Next::Continue
        }
    }

    /// The cut and copy commands.
    fn clip(&mut self, cut: bool)
        requires
            old(self).wf(),
        ensures
            final(self).wf(),
            final(self)@ == old(self)@.clipped(cut),
    {
        let files = self.marked_or_selected();
        let line = if cut {
            items_line("cut ", files.len())
        } else {
            items_line("copying ", files.len())
        };
        self.emit(Effect::Log(Level::Info, line));
        self.clipboard = Some(Clipboard { files, cut });
    }

    /// The delete command.
    fn delete(&mut self)
        requires
            old(self).wf(),
        ensures
            final(self).wf(),
            final(self)@ == old(self)@.deleted(),
    {
        let files = self.marked_or_selected();
        self.emit(Effect::Log(Level::Info, items_line("Deleted ", files.len())));
        self.unmark_all_items();
        self.emit(Effect::Trash(files));
        self.reload_all();
    }

    /// The paste command.
    fn paste(&mut self, overwrite: bool)
        requires
            old(self).wf(),
        ensures
            final(self).wf(),
            final(self)@ == old(self)@.pasted(overwrite),
    {
        self.unmark_all_items();
        let mut clipboard: Option<Clipboard> = None;
        std::mem::swap(&mut clipboard, &mut self.clipboard);
        match clipboard {
            Some(clipboard) => {
                let target = self.center.panel.path().clone();
                self.emit(
                    Effect::Paste { files: clipboard.files, cut: clipboard.cut, target, overwrite },
                );
            },
            None => {},
        }
        self.reload_all();
        self.redraw_panels();
    }

    /// Carries out a command of normal mode.
    pub fn command(&mut self, command: Command) -> (next: Next)
        requires
            old(self).wf(),
        ensures
            final(self).wf(),
            final(self)@ == old(self)@.commanded(command@).state,
            next@ == old(self)@.commanded(command@).next,
    {
        match command {
            Command::Move(movement) => self.move_cursor(movement),
            Command::ViewTrash => {
                let path = self.trash_dir.clone();
                self.ask_jump(path, After::Nothing)
            },
            Command::ToggleHidden => {
                self.toggle_hidden();
                Next::Continue
            },
            Command::ToggleLog => {
                self.toggle_log();
                Next::Continue
            },
            Command::Cd => {
                self.pre_console_path = self.center.panel.path().clone();
                self.mode = Mode::Console;
                self.emit(Effect::OpenConsole);
                self.redraw_console();
                Next::Continue
            },
            Command::Search => {
                self.mode = Mode::Search { input: String::new() };
                self.redraw_footer();
                Next::Continue
            },
            Command::Rename => self.start_rename(),
            Command::Next => {
                self.center.panel.select_next_marked();
                self.request_preview();
                self.redraw_center();
                self.redraw_right();
                Next::Continue
            },
            Command::Previous => {
                self.center.panel.select_prev_marked();
                self.request_preview();
                self.redraw_center();
                self.redraw_right();
                Next::Continue
            },
            Command::Mkdir => {
                self.mode = Mode::CreateItem { input: String::new(), is_dir: true };
                self.redraw_footer();
                Next::Continue
            },
            Command::Touch => {
                self.mode = Mode::CreateItem { input: String::new(), is_dir: false };
                self.redraw_footer();
                Next::Continue
            },
            Command::Mark => {
                self.mark();
                Next::Continue
            },
            Command::Cut => {
                self.clip(true);
                Next::Continue
            },
            Command::Copy => {
                self.clip(false);
                Next::Continue
            },
            Command::Delete => {
                self.delete();
                Next::Continue
            },
            Command::Paste { overwrite } => {
                self.paste(overwrite);
                Next::Continue
            },
            Command::Quit => Next::Quit,
            Command::Incomplete => {
                self.redraw_footer();
                Next::Continue
            },
        }
    }
}

impl PanelManager {
    /// What a key does in console mode.
    fn console_key(&mut self, key: KeyCode) -> (next: Next)
        requires
            old(self).wf(),
        ensures
            final(self).wf(),
            final(self)@ == old(self)@.console_key(key).state,
            next@ == old(self)@.console_key(key).next,
    {
        match key {
            KeyCode::Backspace => self.ask(Pending::Console, Question::Console(ConsoleKey::Delete)),
            KeyCode::Enter => {
                self.mode = Mode::Normal;
                self.redraw_panels();
                Next::Continue
            },
            KeyCode::Tab => self.ask(Pending::Console, Question::Console(ConsoleKey::Tab)),
            KeyCode::BackTab => self.ask(Pending::Console, Question::Console(ConsoleKey::BackTab)),
            KeyCode::Char(c) => self.ask(
                Pending::Console,
                Question::Console(ConsoleKey::Insert(c)),
            ),
            _ => Next::Continue,
        }
    }

    /// Goes on once the console overlay has said where the key led.
    pub fn console_answered(&mut self, path: Option<String>) -> (next: Next)
        requires
            old(self).wf(),
        ensures
            final(self).wf(),
            final(self)@ == old(self)@.console_answered(crate::text::opt_view(path)).state,
            next@ == old(self)@.console_answered(crate::text::opt_view(path)).next,
    {
        match path {
            Some(p) => self.ask_jump(p, After::Console),
            None => {
                self.redraw_console();
                Next::Continue
            },
        }
    }

    /// What a key does while the name `input` of a new item is typed.
    fn create_key(&mut self, key: KeyCode, input: String, is_dir: bool)
        requires
            old(self).wf(),
        ensures
            final(self).wf(),
            final(self)@ == old(self)@.in_mode(
                ModeModel::CreateItem { input: input@, is_dir },
            ).create_key(key, input@, is_dir),
    {
        let mut input = input;
        match key {
            KeyCode::Backspace => {
                input.pop();
                self.mode = Mode::CreateItem { input, is_dir };
                self.redraw_footer();
            },
            KeyCode::Enter => {
                let name = crate::text::trim(input.as_str());
                let path = crate::path::join(self.center.panel.path().as_str(), name.as_str());
                self.emit(Effect::Create { path, is_dir });
                self.mode = Mode::Normal;
                self.redraw_panels();
            },
            KeyCode::Tab => {
                self.mode = Mode::CreateItem { input, is_dir };
                self.redraw_footer();
            },
            KeyCode::Char(c) => {
                input.push(c);
                self.mode = Mode::CreateItem { input, is_dir };
                self.redraw_footer();
            },
            _ => {
                self.mode = Mode::CreateItem { input, is_dir };
            },
        }
    }

    /// What a key does while the search text `input` is typed.
    fn search_key(&mut self, key: KeyCode, input: String)
        requires
            old(self).wf(),
        ensures
            final(self).wf(),
            final(self)@ == old(self)@.in_mode(ModeModel::Search { input: input@ }).search_key(
                key,
                input@,
            ),
    {
        let mut input = input;
        match key {
            KeyCode::Enter => {
                self.center.panel.finish_search(input.as_str());
                self.center.panel.select_next_marked();
                self.request_preview();
                self.mode = Mode::Normal;
                self.redraw_center();
                self.redraw_right();
            },
            _ => {
                edit_search(&mut input, key);
                self.center.panel.update_search(input.clone());
                self.mode = Mode::Search { input };
                self.redraw_center();
            },
        }
    }

    /// What a key does while the new name `input` is typed.
    fn rename_key(&mut self, key: KeyCode, input: String)
        requires
            old(self).wf(),
        ensures
            final(self).wf(),
            final(self)@ == old(self)@.in_mode(ModeModel::Rename { input: input@ }).rename_key(
                key,
                input@,
            ),
    {
        let mut input = input;
        match key {
            KeyCode::Enter => {
                match owned(self.center.panel.selected_path()) {
                    Some(from) => {
                        let to = match crate::path::parent(from.as_str()) {
                            Some(parent) => crate::path::join(parent.as_str(), input.as_str()),
                            None => String::new(),
                        };
                        self.emit(Effect::Rename(Renaming { from, to }));
                    },
                    None => {},
                }
                self.mode = Mode::Normal;
                let request = self.center.reload();
                self.emit_directory(request);
                let request = self.right.reload();
                self.emit_preview(request);
                self.redraw_panels();
            },
            _ => {
                edit_input(&mut input, key);
                self.mode = Mode::Rename { input };
                self.redraw_center();
            },
        }
    }

    /// What a key does in the mode that the manager is in.
    fn key_in_mode(&mut self, key: KeyCode) -> (next: Next)
        requires
            old(self).wf(),
        ensures
            final(self).wf(),
            final(self)@ == old(self)@.key_in_mode(key).state,
            next@ == old(self)@.key_in_mode(key).next,
    {
        let mut mode = Mode::Normal;
        std::mem::swap(&mut mode, &mut self.mode);
        assert(self@ == old(self)@.in_mode(ModeModel::Normal));
        assert(old(self)@.in_mode(ModeModel::Normal).in_mode(old(self)@.mode) == old(self)@);
        match mode {
            Mode::Normal => self.ask(Pending::Command, Question::Command(key)),
            Mode::Console => {
                self.mode = Mode::Console;
                self.console_key(key)
            },
            Mode::CreateItem { input, is_dir } => {
                self.create_key(key, input, is_dir);
                Next::Continue
            },
            Mode::Search { input } => {
                self.search_key(key, input);
                Next::Continue
            },
            Mode::Rename { input } => {
                self.rename_key(key, input);
                Next::Continue
            },
        }
    }

    /// What a key does.
    fn key_pressed(&mut self, key: KeyCode) -> (next: Next)
        requires
            old(self).wf(),
        ensures
            final(self).wf(),
            final(self)@ == old(self)@.key_pressed(key).state,
            next@ == old(self)@.key_pressed(key).next,
    {
        match key {
            KeyCode::Esc => {
                let in_console = match &self.mode {
                    Mode::Console => true,
                    _ => false,
                };
                if in_console {
                    let path = self.pre_console_path.clone();
                    self.ask_jump(path, After::Escape)
                } else {
                    self.escape();
                    self.key_in_mode(key)
                }
            },
            _ => self.key_in_mode(key),
        }
    }

    /// Handles an event of the terminal: a key goes the way of the mode, a
    /// new size gives a new layout and has everything drawn again. The
    /// result says whether the event loop ends, goes on, or has a question
    /// to answer first.
    pub fn handle_event(&mut self, event: Event) -> (next: Next)
        requires
            old(self).wf(),
        ensures
            final(self).wf(),
            final(self)@ == old(self)@.event_handled(event).state,
            next@ == old(self)@.event_handled(event).next,
    {
        match event {
            Event::Key(key) => self.key_pressed(key),
            Event::Resize(width, height) => {
                self.layout = MillerColumns::from_size((width, height));
                self.redraw_everything();
                Next::Continue
            },
            Event::Other => Next::Continue,
        }
    }

    /// Goes on with the answer to the open question. An answer to another
    /// question changes nothing.
    pub fn resume(&mut self, answer: Answer) -> (next: Next)
        requires
            old(self).wf(),
        ensures
            final(self).wf(),
            final(self)@ == old(self)@.answered(answer@).state,
            next@ == old(self)@.answered(answer@).next,
    {
        let mut pending = Pending::Idle;
        std::mem::swap(&mut pending, &mut self.pending);
        assert(self@ == old(self)@.settled());
        match (pending, answer) {
            (Pending::Command, Answer::Command(command)) => self.command(command),
            (Pending::Console, Answer::Console(path)) => self.console_answered(path),
            (Pending::Jump { path, after }, Answer::Exists(exists)) => {
                self.jump(path, exists);
                self.after_jump(after)
            },
            (Pending::Enter { path }, Answer::IsDir(is_dir)) => self.enter(path, is_dir),
            (Pending::Open, Answer::Opened) => {
                self.opened();
                Next::Continue
            },
            (Pending::Edit { sources }, Answer::Edited(text)) => self.edited(sources, text),
            (Pending::Collide { sources, targets }, Answer::Exists(any)) => {
                self.collided(sources, targets, any);
                Next::Continue
            },
            (pending, _) => {
                self.pending = pending;
                Next::Continue
            },
        }
    }

    /// Takes a directory panel that was loaded for the request with
    /// `state`: the center slot takes it if the state is its own, else the
    /// left slot if the state is its own; otherwise the panel is dropped.
    pub fn directory_loaded(&mut self, panel: crate::directory::DirPanel, state: &crate::slot::PanelState)
        requires
            old(self).wf(),
            panel.wf(),
        ensures
            final(self).wf(),
            final(self)@ == old(self)@.directory_loaded(panel@, state@),
    {
        if self.center.check_update(state) {
            self.center.update_panel(&mut self.directories, panel);
            self.request_preview();
            self.redraw_center();
            self.redraw_right();
            self.redraw_console();
        } else if self.left.check_update(state) {
            self.left.update_panel(&mut self.directories, panel);
            let path = self.center.panel.path().clone();
            self.left.panel.select_path(&path);
            self.redraw_left();
            self.redraw_console();
        } else {
            self.emit(Effect::Log(Level::Error, "unknown panel update".to_owned()));
        }
    }

    /// Takes a preview that was loaded for the request with `state`: the
    /// right slot takes it if the state is its own; otherwise the preview
    /// is dropped.
    pub fn preview_loaded(&mut self, panel: crate::preview::PreviewPanel, state: &crate::slot::PanelState)
        requires
            old(self).wf(),
            panel.wf(),
        ensures
            final(self).wf(),
            final(self)@ == old(self)@.preview_loaded(panel@, state@),
    {
        if self.right.check_update(state) {
            self.right.update_panel(&mut self.previews, panel);
            self.redraw_right();
            self.redraw_console();
        }
    }

    /// Runs one turn of the event loop on `message`. While a question is
    /// open, events of the terminal are not handled; loaded panels and log
    /// lines are.
    pub fn run(&mut self, message: Message) -> (next: Next)
        requires
            old(self).wf(),
            message.wf(),
        ensures
            final(self).wf(),
            final(self)@ == old(self)@.ran(message@).state,
            next@ == old(self)@.ran(message@).next,
    {
        match message {
            Message::Log => {
                self.redraw_log();
                Next::Continue
            },
            Message::Directory(panel, state) => {
                self.directory_loaded(panel, &state);
                Next::Continue
            },
            Message::Preview(panel, state) => {
                self.preview_loaded(panel, &state);
                Next::Continue
            },
            Message::Terminal(event) => {
                let idle = match &self.pending {
                    Pending::Idle => true,
                    _ => false,
                };
                if idle {
                    self.handle_event(event)
                } else {
                    Next::Continue
                }
            },
            Message::Answer(answer) => self.resume(answer),
            Message::Closed => Next::Quit,
        }
    }
}

} // verus!
