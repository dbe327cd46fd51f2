//! One entry of a directory listing.

use vstd::prelude::*;
use crate::path::display_name;
use crate::path::shown_name;
use crate::text::lowercase;
use crate::text::lowercase_of;
use crate::text::occurs_in;
use crate::text::contains;

verus! {

/// What kind of entry a path names.
#[derive(Clone, Copy, Debug, PartialEq, Eq, Structural)]
pub enum ElemKind {
    File,
    Dir,
    Symlink,
}

/// What an entry is: its path, its kind and whether it is marked.
pub struct ElemModel {
    pub path: Seq<char>,
    pub kind: ElemKind,
    pub marked: bool,
}

impl ElemModel {
    /// The name under which the entry is shown.
    pub open spec fn name(self) -> Seq<char> {
        display_name(self.path)
    }

    /// Whether the entry is a hidden one: its name begins with a dot.
    pub open spec fn hidden(self) -> bool {
        self.name().len() > 0 && self.name()[0] == '.'
    }

    /// Whether a search for `pattern` finds the entry: the pattern is not
    /// empty and occurs in the lowercase form of the name.
    pub open spec fn matches(self, pattern: Seq<char>) -> bool {
        pattern.len() > 0 && occurs_in(pattern, lowercase_of(self.name()))
    }

    /// The entry with its mark set to `marked`.
    pub open spec fn with_mark(self, marked: bool) -> ElemModel {
        ElemModel { marked, ..self }
    }
}

/// One entry of a directory listing.
#[derive(Debug, PartialEq, Eq)]
pub struct DirElem {
    path: String,
    name: String,
    lowercase: String,
    kind: ElemKind,
    hidden: bool,
    marked: bool,
}

impl View for DirElem {
    type V = ElemModel;

    closed spec fn view(&self) -> ElemModel {
        ElemModel { path: self.path@, kind: self.kind, marked: self.marked }
    }
}

impl DirElem {
    /// The name, its lowercase form and the hidden flag are those of the path.
    pub closed spec fn wf(&self) -> bool {
        &&& self.name@ == display_name(self.path@)
        &&& self.lowercase@ == lowercase_of(self.name@)
        &&& self.hidden == self@.hidden()
    }

    /// An unmarked entry for `path`.
    pub fn new(path: String, kind: ElemKind) -> (e: DirElem)
        ensures
            e.wf(),
            e@ == (ElemModel { path: path@, kind, marked: false }),
    {
        let name = shown_name(path.as_str());
        let lowercase = lowercase(name.as_str());
        let hidden = name.as_str().unicode_len() > 0 && name.as_str().get_char(0) == '.';
        DirElem { path, name, lowercase, kind, hidden, marked: false }
    }

    /// The path of the entry.
    pub fn path(&self) -> (p: &String)
        ensures
            p@ == self@.path,
    {
        &self.path
    }

    /// The name under which the entry is shown.
    pub fn name(&self) -> (n: &String)
        requires
            self.wf(),
        ensures
            n@ == self@.name(),
    {
        &self.name
    }

    /// The kind of the entry.
    pub fn kind(&self) -> (k: ElemKind)
        ensures
            k == self@.kind,
    {
        self.kind
    }

    /// Whether the entry is a hidden one.
    pub fn is_hidden(&self) -> (h: bool)
        requires
            self.wf(),
        ensures
            h == self@.hidden(),
    {
        self.hidden
    }

    /// Whether the entry is marked.
    pub fn is_marked(&self) -> (m: bool)
        ensures
            m == self@.marked,
    {
        self.marked
    }

    /// Marks the entry.
    pub fn mark(&mut self)
        requires
            old(self).wf(),
        ensures
            final(self).wf(),
            final(self)@ == old(self)@.with_mark(true),
    {
        self.marked = true;
    }

    /// Takes the mark from the entry.
    pub fn unmark(&mut self)
        requires
            old(self).wf(),
        ensures
            final(self).wf(),
            final(self)@ == old(self)@.with_mark(false),
    {
        self.marked = false;
    }

    /// Sets the mark of the entry.
    pub fn set_mark(&mut self, marked: bool)
        requires
            old(self).wf(),
        ensures
            final(self).wf(),
            final(self)@ == old(self)@.with_mark(marked),
    {
        self.marked = marked;
    }

    /// Whether a search for `pattern` finds the entry.
    pub fn matches(&self, pattern: &str) -> (found: bool)
        requires
            self.wf(),
        ensures
            found == self@.matches(pattern@),
    {
        pattern.unicode_len() > 0 && contains(self.lowercase.as_str(), pattern)
    }

    /// A copy of the entry.
    pub fn duplicate(&self) -> (e: DirElem)
        requires
            self.wf(),
        ensures
            e.wf(),
            e@ == self@,
    {
        DirElem {
            path: self.path.clone(),
            name: self.name.clone(),
            lowercase: self.lowercase.clone(),
            kind: self.kind,
            hidden: self.hidden,
            marked: self.marked,
        }
    }
}

} // verus!
