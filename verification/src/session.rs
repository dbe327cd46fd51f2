//! What passes between the manager and the program around it: the messages
//! that the manager takes, the questions that it asks, the answers to them,
//! and the effects that it leaves to be carried out.

use vstd::prelude::*;
use crate::directory::DirPanel;
use crate::event::Command;
use crate::event::CommandModel;
use crate::event::ConsoleKey;
use crate::event::Event;
use crate::event::KeyCode;
use crate::directory::PanelModel;
use crate::preview::PreviewModel;
use crate::preview::PreviewPanel;
use crate::slot::PanelState;
use crate::slot::Request;
use crate::slot::RequestModel;
use crate::slot::StateModel;
use crate::text::opt_view;
use crate::text::views;

verus! {

/// The level of a log line.
#[derive(Clone, Copy, Debug, PartialEq, Eq, Structural)]
pub enum Level {
    Error,
    Warn,
    Info,
    Debug,
    Trace,
}

/// What a renaming is.
pub struct RenamingModel {
    pub from: Seq<char>,
    pub to: Seq<char>,
}

/// One path that is to be renamed.
#[derive(Debug, PartialEq, Eq)]
pub struct Renaming {
    pub from: String,
    pub to: String,
}

impl View for Renaming {
    type V = RenamingModel;

    open spec fn view(&self) -> RenamingModel {
        RenamingModel { from: self.from@, to: self.to@ }
    }
}

/// The views of a list of renamings.
pub open spec fn renaming_views(v: Seq<Renaming>) -> Seq<RenamingModel> {
    Seq::new(v.len(), |i: int| v[i]@)
}

/// What an effect is.
pub enum EffectModel {
    LoadDirectory(RequestModel),
    LoadPreview(RequestModel),
    ClearKeys,
    OpenConsole,
    Trash(Seq<Seq<char>>),
    Paste { files: Seq<Seq<char>>, cut: bool, target: Seq<char>, overwrite: bool },
    Create { path: Seq<char>, is_dir: bool },
    Rename(RenamingModel),
    RenameAll(Seq<RenamingModel>),
    Discard,
    Log(Level, Seq<char>),
}

/// Something that the manager has decided and that the program around it
/// carries out, in the order in which the effects were left.
#[derive(Debug, PartialEq, Eq)]
pub enum Effect {
    /// Send the request to the directory worker.
    LoadDirectory(Request),
    /// Send the request to the preview worker.
    LoadPreview(Request),
    /// Clear the buffer of the key parser.
    ClearKeys,
    /// Build the console overlay from the center panel.
    OpenConsole,
    /// Move each path into the trash directory, under a name that is free
    /// there. A failure is logged.
    Trash(Vec<String>),
    /// Move (cut) or copy each path into `target`, off the event loop. A
    /// failure is logged.
    Paste { files: Vec<String>, cut: bool, target: String, overwrite: bool },
    /// Create a directory, or an empty file, at `path`. A failure is logged.
    Create { path: String, is_dir: bool },
    /// Rename one path. A failure is logged.
    Rename(Renaming),
    /// Rename each path in turn. A failure ends the event loop.
    RenameAll(Vec<Renaming>),
    /// Delete the file that held the names of a bulk rename.
    Discard,
    /// Write a line to the log.
    Log(Level, String),
}

impl View for Effect {
    type V = EffectModel;

    open spec fn view(&self) -> EffectModel {
        match self {
            Effect::LoadDirectory(r) => EffectModel::LoadDirectory(r@),
            Effect::LoadPreview(r) => EffectModel::LoadPreview(r@),
            Effect::ClearKeys => EffectModel::ClearKeys,
            Effect::OpenConsole => EffectModel::OpenConsole,
            Effect::Trash(files) => EffectModel::Trash(views(files@)),
            Effect::Paste { files, cut, target, overwrite } => EffectModel::Paste {
                files: views(files@),
                cut: *cut,
                target: target@,
                overwrite: *overwrite,
            },
            Effect::Create { path, is_dir } => EffectModel::Create { path: path@, is_dir: *is_dir },
            Effect::Rename(r) => EffectModel::Rename(r@),
            Effect::RenameAll(v) => EffectModel::RenameAll(renaming_views(v@)),
            Effect::Discard => EffectModel::Discard,
            Effect::Log(level, text) => EffectModel::Log(*level, text@),
        }
    }
}

/// The views of a list of effects.
pub open spec fn effect_views(v: Seq<Effect>) -> Seq<EffectModel> {
    Seq::new(v.len(), |i: int| v[i]@)
}

/// What a question is.
pub enum QuestionModel {
    Command(KeyCode),
    Console(ConsoleKey),
    Exists(Seq<char>),
    IsDir(Seq<char>),
    Open(Seq<char>),
    Edit(Seq<char>),
    AnyExists(Seq<Seq<char>>),
}

/// Something that the manager has to know before it can go on.
#[derive(Debug, PartialEq, Eq)]
pub enum Question {
    /// What does the key parser make of this key?
    Command(KeyCode),
    /// Where does this key lead the console overlay?
    Console(ConsoleKey),
    /// Does this path exist?
    Exists(String),
    /// Is this path a directory?
    IsDir(String),
    /// Open this path with the opener, and answer when it has returned.
    Open(String),
    /// Let the user edit this text, and answer with what became of it.
    Edit(String),
    /// Does any of these paths exist?
    AnyExists(Vec<String>),
}

impl View for Question {
    type V = QuestionModel;

    open spec fn view(&self) -> QuestionModel {
        match self {
            Question::Command(key) => QuestionModel::Command(*key),
            Question::Console(key) => QuestionModel::Console(*key),
            Question::Exists(path) => QuestionModel::Exists(path@),
            Question::IsDir(path) => QuestionModel::IsDir(path@),
            Question::Open(path) => QuestionModel::Open(path@),
            Question::Edit(text) => QuestionModel::Edit(text@),
            Question::AnyExists(paths) => QuestionModel::AnyExists(views(paths@)),
        }
    }
}

/// What an answer is.
pub enum AnswerModel {
    Command(CommandModel),
    Console(Option<Seq<char>>),
    Exists(bool),
    IsDir(bool),
    Opened,
    Edited(Option<Seq<char>>),
}

/// The answer to a question.
#[derive(Debug, PartialEq, Eq)]
pub enum Answer {
    /// What the key parser made of the key.
    Command(Command),
    /// The path to which the key led the console overlay, if it led anywhere.
    Console(Option<String>),
    /// Whether the path, or any of the paths, exists.
    Exists(bool),
    /// Whether the path is a directory.
    IsDir(bool),
    /// The opener has returned.
    Opened,
    /// The text as the user left it; none where the editor could not be run.
    Edited(Option<String>),
}

impl View for Answer {
    type V = AnswerModel;

    open spec fn view(&self) -> AnswerModel {
        match self {
            Answer::Command(command) => AnswerModel::Command(command@),
            Answer::Console(path) => AnswerModel::Console(opt_view(*path)),
            Answer::Exists(b) => AnswerModel::Exists(*b),
            Answer::IsDir(b) => AnswerModel::IsDir(*b),
            Answer::Opened => AnswerModel::Opened,
            Answer::Edited(text) => AnswerModel::Edited(opt_view(*text)),
        }
    }
}

/// What comes next.
pub enum NextModel {
    Continue,
    Quit,
    Ask(QuestionModel),
}

/// What the event loop does after a turn.
#[derive(Debug, PartialEq, Eq)]
pub enum Next {
    /// Wait for the next message.
    Continue,
    /// End the loop.
    Quit,
    /// Find the answer to the question and hand it back.
    Ask(Question),
}

impl View for Next {
    type V = NextModel;

    open spec fn view(&self) -> NextModel {
        match self {
            Next::Continue => NextModel::Continue,
            Next::Quit => NextModel::Quit,
            Next::Ask(q) => NextModel::Ask(q@),
        }
    }
}

/// What continues after a jump.
#[derive(Clone, Copy, Debug, PartialEq, Eq, Structural)]
pub enum After {
    /// Nothing.
    Nothing,
    /// The console overlay is drawn again.
    Console,
    /// The rest of what the escape key does.
    Escape,
}

/// What an open question is.
pub enum PendingModel {
    Idle,
    Command,
    Console,
    Jump { path: Seq<char>, after: After },
    Enter { path: Seq<char> },
    Open,
    Edit { sources: Seq<Seq<char>> },
    Collide { sources: Seq<Seq<char>>, targets: Seq<Seq<char>> },
}

/// The question that the manager has asked and that is not answered yet,
/// with what it needs to go on.
#[derive(Debug, PartialEq, Eq)]
pub enum Pending {
    /// No question is open.
    Idle,
    /// The key parser was asked for a command.
    Command,
    /// The console overlay was asked for a path.
    Console,
    /// Whether `path` exists was asked, to jump there.
    Jump { path: String, after: After },
    /// Whether `path` is a directory was asked, to enter or to open it.
    Enter { path: String },
    /// The opener runs.
    Open,
    /// The user edits the names of `sources`.
    Edit { sources: Vec<String> },
    /// Whether any of `targets` exists was asked, to rename `sources` to
    /// them.
    Collide { sources: Vec<String>, targets: Vec<String> },
}

impl View for Pending {
    type V = PendingModel;

    open spec fn view(&self) -> PendingModel {
        match self {
            Pending::Idle => PendingModel::Idle,
            Pending::Command => PendingModel::Command,
            Pending::Console => PendingModel::Console,
            Pending::Jump { path, after } => PendingModel::Jump { path: path@, after: *after },
            Pending::Enter { path } => PendingModel::Enter { path: path@ },
            Pending::Open => PendingModel::Open,
            Pending::Edit { sources } => PendingModel::Edit { sources: views(sources@) },
            Pending::Collide { sources, targets } => PendingModel::Collide {
                sources: views(sources@),
                targets: views(targets@),
            },
        }
    }
}

/// What a message is.
pub enum MessageModel {
    Log,
    Directory(PanelModel, StateModel),
    Preview(PreviewModel, StateModel),
    Terminal(Event),
    Answer(AnswerModel),
    Closed,
}

/// One thing that the event loop waits for.
#[derive(Debug, PartialEq, Eq)]
pub enum Message {
    /// The log has a new line.
    Log,
    /// The directory worker has loaded a panel for the request with this
    /// state.
    Directory(DirPanel, PanelState),
    /// The preview worker has loaded a panel for the request with this
    /// state.
    Preview(PreviewPanel, PanelState),
    /// The terminal reports an event.
    Terminal(Event),
    /// The answer to the question that was asked last.
    Answer(Answer),
    /// One of the sources of messages is closed.
    Closed,
}

impl View for Message {
    type V = MessageModel;

    open spec fn view(&self) -> MessageModel {
        match self {
            Message::Log => MessageModel::Log,
            Message::Directory(panel, state) => MessageModel::Directory(panel@, state@),
            Message::Preview(panel, state) => MessageModel::Preview(panel@, state@),
            Message::Terminal(event) => MessageModel::Terminal(*event),
            Message::Answer(answer) => MessageModel::Answer(answer@),
            Message::Closed => MessageModel::Closed,
        }
    }
}

impl Message {
    /// A panel that the message carries is well-formed.
    pub open spec fn wf(&self) -> bool {
        match self {
            Message::Directory(panel, _) => panel.wf(),
            Message::Preview(panel, _) => panel.wf(),
            _ => true,
        }
    }
}

} // verus!
