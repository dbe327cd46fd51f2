//! The input modes and the clipboard.

use vstd::prelude::*;
use crate::text::views;

verus! {

/// What a mode is.
pub enum ModeModel {
    Normal,
    Console,
    CreateItem { input: Seq<char>, is_dir: bool },
    Search { input: Seq<char> },
    Rename { input: Seq<char> },
}

/// The mode that decides what a key does.
#[derive(Debug, PartialEq, Eq)]
pub enum Mode {
    /// Keys go to the key parser.
    Normal,
    /// Keys go to the console overlay.
    Console,
    /// Keys edit the name of an item that is to be created.
    CreateItem { input: String, is_dir: bool },
    /// Keys edit the search text.
    Search { input: String },
    /// Keys edit the new name of the selected entry.
    Rename { input: String },
}

impl View for Mode {
    type V = ModeModel;

    open spec fn view(&self) -> ModeModel {
        match self {
            Mode::Normal => ModeModel::Normal,
            Mode::Console => ModeModel::Console,
            Mode::CreateItem { input, is_dir } => ModeModel::CreateItem {
                input: input@,
                is_dir: *is_dir,
            },
            Mode::Search { input } => ModeModel::Search { input: input@ },
            Mode::Rename { input } => ModeModel::Rename { input: input@ },
        }
    }
}

/// What a clipboard is.
pub struct ClipboardModel {
    pub files: Seq<Seq<char>>,
    pub cut: bool,
}

/// The paths that were cut or copied.
#[derive(Debug, PartialEq, Eq)]
pub struct Clipboard {
    /// The paths in the clipboard.
    pub files: Vec<String>,
    /// Whether the paths are to be moved (cut) or copied.
    pub cut: bool,
}

impl View for Clipboard {
    type V = ClipboardModel;

    open spec fn view(&self) -> ClipboardModel {
        ClipboardModel { files: views(self.files@), cut: self.cut }
    }
}

/// The view of an optional clipboard.
pub open spec fn opt_clipboard_view(c: Option<Clipboard>) -> Option<ClipboardModel> {
    match c {
        Some(c) => Some(c@),
        None => None,
    }
}

} // verus!
