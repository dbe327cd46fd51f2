//! What the terminal reports, and what the key parser makes of it.

use vstd::prelude::*;

verus! {

/// A key, as far as the manager tells keys apart.
#[derive(Clone, Copy, Debug, PartialEq, Eq, Structural)]
pub enum KeyCode {
    Backspace,
    Enter,
    Tab,
    BackTab,
    Esc,
    Char(char),
    /// Any other key.
    Other,
}

/// An event of the terminal.
#[derive(Clone, Copy, Debug, PartialEq, Eq, Structural)]
pub enum Event {
    /// A key was pressed.
    Key(KeyCode),
    /// The terminal has a new `(width, height)`.
    Resize(u16, u16),
    /// Any other event.
    Other,
}

/// A key that the console overlay handles.
#[derive(Clone, Copy, Debug, PartialEq, Eq, Structural)]
pub enum ConsoleKey {
    /// Extends the query by a character.
    Insert(char),
    /// Deletes the last character of the query.
    Delete,
    /// Goes to the next match.
    Tab,
    /// Goes to the previous match.
    BackTab,
}

/// What a move is.
pub enum MoveModel {
    Up,
    Down,
    Left,
    Right,
    Top,
    Bottom,
    HalfPageForward,
    HalfPageBackward,
    PageForward,
    PageBackward,
    JumpTo(Seq<char>),
    JumpPrevious,
}

/// A move of the cursor or of the panels.
#[derive(Debug, PartialEq, Eq)]
pub enum Move {
    Up,
    Down,
    Left,
    Right,
    Top,
    Bottom,
    HalfPageForward,
    HalfPageBackward,
    PageForward,
    PageBackward,
    JumpTo(String),
    JumpPrevious,
}

impl View for Move {
    type V = MoveModel;

    open spec fn view(&self) -> MoveModel {
        match self {
            Move::Up => MoveModel::Up,
            Move::Down => MoveModel::Down,
            Move::Left => MoveModel::Left,
            Move::Right => MoveModel::Right,
            Move::Top => MoveModel::Top,
            Move::Bottom => MoveModel::Bottom,
            Move::HalfPageForward => MoveModel::HalfPageForward,
            Move::HalfPageBackward => MoveModel::HalfPageBackward,
            Move::PageForward => MoveModel::PageForward,
            Move::PageBackward => MoveModel::PageBackward,
            Move::JumpTo(path) => MoveModel::JumpTo(path@),
            Move::JumpPrevious => MoveModel::JumpPrevious,
        }
    }
}

/// What a command is.
pub enum CommandModel {
    Move(MoveModel),
    ViewTrash,
    ToggleHidden,
    ToggleLog,
    Cd,
    Search,
    Rename,
    Next,
    Previous,
    Mkdir,
    Touch,
    Mark,
    Cut,
    Copy,
    Delete,
    Paste { overwrite: bool },
    Quit,
    Incomplete,
}

/// What the key parser makes of a key in normal mode.
#[derive(Debug, PartialEq, Eq)]
pub enum Command {
    Move(Move),
    ViewTrash,
    ToggleHidden,
    ToggleLog,
    Cd,
    Search,
    Rename,
    Next,
    Previous,
    Mkdir,
    Touch,
    Mark,
    Cut,
    Copy,
    Delete,
    Paste { overwrite: bool },
    Quit,
    /// The key completes no command yet.
    Incomplete,
}

impl View for Command {
    type V = CommandModel;

    open spec fn view(&self) -> CommandModel {
        match self {
            Command::Move(m) => CommandModel::Move(m@),
            Command::ViewTrash => CommandModel::ViewTrash,
            Command::ToggleHidden => CommandModel::ToggleHidden,
            Command::ToggleLog => CommandModel::ToggleLog,
            Command::Cd => CommandModel::Cd,
            Command::Search => CommandModel::Search,
            Command::Rename => CommandModel::Rename,
            Command::Next => CommandModel::Next,
            Command::Previous => CommandModel::Previous,
            Command::Mkdir => CommandModel::Mkdir,
            Command::Touch => CommandModel::Touch,
            Command::Mark => CommandModel::Mark,
            Command::Cut => CommandModel::Cut,
            Command::Copy => CommandModel::Copy,
            Command::Delete => CommandModel::Delete,
            Command::Paste { overwrite } => CommandModel::Paste { overwrite: *overwrite },
            Command::Quit => CommandModel::Quit,
            Command::Incomplete => CommandModel::Incomplete,
        }
    }
}

} // verus!
