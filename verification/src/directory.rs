//! A directory listing with a cursor, a filter for hidden entries, marks and
//! a search.

use vstd::prelude::*;
use crate::element::DirElem;
use crate::element::ElemModel;
use crate::panel::Panel;
use crate::text::opt_view;

verus! {

/// What a directory panel is: the entries in their order, the filter for
/// hidden entries, the cursor as a position among the entries that are
/// shown, and the search text.
pub struct PanelModel {
    pub path: Seq<char>,
    pub elems: Seq<ElemModel>,
    pub show_hidden: bool,
    pub cursor: nat,
    pub search: Option<Seq<char>>,
}

impl PanelModel {
    /// Whether the entry at index `i` is shown.
    pub open spec fn visible_at(self, i: int) -> bool {
        self.show_hidden || !self.elems[i].hidden()
    }

    /// The indices below `n` of the entries that are shown, in order.
    pub open spec fn shown_upto(self, n: int) -> Seq<int>
        decreases n,
    {
        if n <= 0 {
            Seq::empty()
        } else if self.visible_at(n - 1) {
            self.shown_upto(n - 1).push(n - 1)
        } else {
            self.shown_upto(n - 1)
        }
    }

    /// The indices of the entries that are shown, in order.
    pub open spec fn shown(self) -> Seq<int> {
        self.shown_upto(self.elems.len() as int)
    }

    /// The cursor is on an entry that is shown, or at zero where none is.
    pub open spec fn wf(self) -> bool {
        self.cursor < self.shown().len() || (self.shown().len() == 0 && self.cursor == 0)
    }

    /// A panel for `path` without entries.
    pub open spec fn blank(path: Seq<char>) -> PanelModel {
        PanelModel { path, elems: Seq::empty(), show_hidden: false, cursor: 0, search: None }
    }

    /// The index of the selected entry, if there is one.
    pub open spec fn selected_index(self) -> Option<int> {
        if self.cursor < self.shown().len() {
            Some(self.shown()[self.cursor as int])
        } else {
            None
        }
    }

    /// The selected entry, if there is one.
    pub open spec fn selected(self) -> Option<ElemModel> {
        match self.selected_index() {
            Some(i) => Some(self.elems[i]),
            None => None,
        }
    }

    /// The path of the selected entry, if there is one.
    pub open spec fn selected_path(self) -> Option<Seq<char>> {
        match self.selected_index() {
            Some(i) => Some(self.elems[i].path),
            None => None,
        }
    }

    /// The position of the cursor, counted from one, and the number of
    /// entries that are shown; two zeros where none is shown.
    pub open spec fn position(self) -> (nat, nat) {
        if self.shown().len() == 0 {
            (0, 0)
        } else {
            (self.cursor + 1, self.shown().len())
        }
    }

    /// The panel with the cursor at `cursor`.
    pub open spec fn at(self, cursor: nat) -> PanelModel {
        PanelModel { cursor, ..self }
    }

    /// The panel after the cursor has moved up by `step` entries, stopping
    /// at the first.
    pub open spec fn moved_up(self, step: nat) -> PanelModel {
        self.at(if step >= self.cursor { 0 } else { (self.cursor - step) as nat })
    }

    /// The panel after the cursor has moved down by `step` entries, stopping
    /// at the last.
    pub open spec fn moved_down(self, step: nat) -> PanelModel {
        if self.shown().len() == 0 {
            self
        } else if self.cursor + step >= self.shown().len() {
            self.at((self.shown().len() - 1) as nat)
        } else {
            self.at(self.cursor + step)
        }
    }

    /// The first position from `k` on whose entry has the path `path`.
    pub open spec fn find_shown(self, path: Seq<char>, k: int) -> Option<int>
        decreases self.shown().len() - k,
    {
        if k < 0 || k >= self.shown().len() {
            None
        } else if self.elems[self.shown()[k]].path == path {
            Some(k)
        } else {
            self.find_shown(path, k + 1)
        }
    }

    /// The panel with the cursor on the first shown entry whose path is
    /// `path`; unchanged where no shown entry has that path.
    pub open spec fn with_selected(self, path: Seq<char>) -> PanelModel {
        match self.find_shown(path, 0) {
            Some(k) => self.at(k as nat),
            None => self,
        }
    }

    /// The number of shown entries whose index is below `i`.
    pub open spec fn rank(self, i: int) -> nat {
        self.shown_upto(i).len()
    }

    /// The panel after the filter for hidden entries has been set: the
    /// selected entry stays selected where it is still shown; otherwise the
    /// cursor goes to the next shown entry after it, or to the last one.
    pub open spec fn with_hidden(self, show: bool) -> PanelModel {
        let next = PanelModel { show_hidden: show, ..self };
        let count = next.shown().len();
        match self.selected_index() {
            None => next.at(0),
            Some(i) => if count == 0 {
                next.at(0)
            } else if next.rank(i) >= count {
                next.at((count - 1) as nat)
            } else {
                next.at(next.rank(i))
            },
        }
    }

    /// The panel with the mark of the entry at index `i` set to `marked`.
    pub open spec fn with_mark_at(self, i: int, marked: bool) -> PanelModel {
        PanelModel { elems: self.elems.update(i, self.elems[i].with_mark(marked)), ..self }
    }

    /// The panel with the selected entry marked.
    pub open spec fn marked_selected(self) -> PanelModel {
        match self.selected_index() {
            Some(i) => self.with_mark_at(i, true),
            None => self,
        }
    }

    /// The panel without any mark.
    pub open spec fn unmarked(self) -> PanelModel {
        PanelModel {
            elems: Seq::new(self.elems.len(), |i: int| self.elems[i].with_mark(false)),
            ..self
        }
    }

    /// Whether the entry at index `i` is found by a search for `pattern`: it
    /// is shown and its name matches.
    pub open spec fn is_match(self, i: int, pattern: Seq<char>) -> bool {
        self.visible_at(i) && self.elems[i].matches(pattern)
    }

    /// The panel in which exactly the entries that a search for `pattern`
    /// finds are marked.
    pub open spec fn search_marked(self, pattern: Seq<char>) -> PanelModel {
        PanelModel {
            elems: Seq::new(
                self.elems.len(),
                |i: int| self.elems[i].with_mark(self.is_match(i, pattern)),
            ),
            ..self
        }
    }

    /// The panel while `pattern` is searched for.
    pub open spec fn searching(self, pattern: Seq<char>) -> PanelModel {
        PanelModel { search: Some(pattern), ..self.search_marked(pattern) }
    }

    /// The panel after the search for `pattern` has been committed.
    pub open spec fn search_finished(self, pattern: Seq<char>) -> PanelModel {
        PanelModel { search: None, ..self.search_marked(pattern) }
    }

    /// The panel without a search text.
    pub open spec fn search_cleared(self) -> PanelModel {
        PanelModel { search: None, ..self }
    }

    /// The paths of the marked entries whose index is below `n`, in order.
    pub open spec fn marked_paths_upto(self, n: int) -> Seq<Seq<char>>
        decreases n,
    {
        if n <= 0 {
            Seq::empty()
        } else if self.elems[n - 1].marked {
            self.marked_paths_upto(n - 1).push(self.elems[n - 1].path)
        } else {
            self.marked_paths_upto(n - 1)
        }
    }

    /// The paths of the marked entries, in order.
    pub open spec fn marked_paths(self) -> Seq<Seq<char>> {
        self.marked_paths_upto(self.elems.len() as int)
    }

    /// Whether the entry at position `k` among the shown ones is marked.
    pub open spec fn marked_at_position(self, k: int) -> bool {
        self.elems[self.shown()[k]].marked
    }

    /// The first position from `k` on whose entry is marked.
    pub open spec fn first_marked_from(self, k: int) -> Option<int>
        decreases self.shown().len() - k,
    {
        if k < 0 || k >= self.shown().len() {
            None
        } else if self.marked_at_position(k) {
            Some(k)
        } else {
            self.first_marked_from(k + 1)
        }
    }

    /// The last position below `k` whose entry is marked.
    pub open spec fn last_marked_before(self, k: int) -> Option<int>
        decreases k,
    {
        if k <= 0 || k > self.shown().len() {
            None
        } else if self.marked_at_position(k - 1) {
            Some(k - 1)
        } else {
            self.last_marked_before(k - 1)
        }
    }

    /// The panel with the cursor on the next marked entry after it, going
    /// on from the first entry where none follows; unchanged where no
    /// shown entry is marked.
    pub open spec fn next_marked(self) -> PanelModel {
        match self.first_marked_from(self.cursor as int + 1) {
            Some(k) => self.at(k as nat),
            None => match self.first_marked_from(0) {
                Some(k) => self.at(k as nat),
                None => self,
            },
        }
    }

    /// The panel with the cursor on the last marked entry before it, going
    /// on from the last entry where none precedes; unchanged where no
    /// shown entry is marked.
    pub open spec fn prev_marked(self) -> PanelModel {
        match self.last_marked_before(self.cursor as int) {
            Some(k) => self.at(k as nat),
            None => match self.last_marked_before(self.shown().len() as int) {
                Some(k) => self.at(k as nat),
                None => self,
            },
        }
    }

    /// Two panels list the same paths in the same order under the same
    /// filter.
    pub open spec fn same_listing(self, other: PanelModel) -> bool {
        &&& self.show_hidden == other.show_hidden
        &&& self.elems.len() == other.elems.len()
        &&& forall|i: int| 0 <= i < self.elems.len() ==> self.elems[i].path == other.elems[i].path
    }
}

/// The shown indices below `n` are indices below `n` of shown entries, in
/// rising order, and none is left out.
pub proof fn lemma_shown_upto(m: PanelModel, n: int)
    requires
        0 <= n <= m.elems.len(),
    ensures
        m.shown_upto(n).len() <= n,
        forall|k: int|
            0 <= k < m.shown_upto(n).len() ==> 0 <= #[trigger] m.shown_upto(n)[k] < n
                && m.visible_at(m.shown_upto(n)[k]),
        forall|j: int, k: int|
            0 <= j < k < m.shown_upto(n).len() ==> m.shown_upto(n)[j] < m.shown_upto(n)[k],
        forall|i: int|
            0 <= i < n && m.visible_at(i) ==> m.shown_upto(n).contains(i),
    decreases n,
{
    if n > 0 {
        lemma_shown_upto(m, n - 1);
        let prev = m.shown_upto(n - 1);
        let cur = m.shown_upto(n);
        if m.visible_at(n - 1) {
            assert(cur == prev.push(n - 1));
            assert(cur[cur.len() - 1] == n - 1);
            assert forall|i: int| 0 <= i < n && m.visible_at(i) implies cur.contains(i) by {
                if i < n - 1 {
                    assert(prev.contains(i));
                    let k = choose|k: int| 0 <= k < prev.len() && prev[k] == i;
                    assert(cur[k] == i);
                } else {
                    assert(cur[cur.len() - 1] == i);
                }
            }
        } else {
            assert(cur == prev);
        }
    }
}

/// The shown indices below `n` begin the shown indices below any larger
/// bound.
pub proof fn lemma_shown_prefix(m: PanelModel, n: int, upper: int)
    requires
        0 <= n <= upper <= m.elems.len(),
    ensures
        m.shown_upto(n).len() <= m.shown_upto(upper).len(),
        m.shown_upto(upper).take(m.shown_upto(n).len() as int) == m.shown_upto(n),
    decreases upper - n,
{
    if n < upper {
        lemma_shown_prefix(m, n, upper - 1);
        let a = m.shown_upto(n);
        let b = m.shown_upto(upper - 1);
        let c = m.shown_upto(upper);
        if m.visible_at(upper - 1) {
            assert(c == b.push(upper - 1));
            assert(c.take(a.len() as int) == b.take(a.len() as int));
        }
    } else {
        assert(m.shown_upto(n).take(m.shown_upto(n).len() as int) == m.shown_upto(n));
    }
}

/// A shown entry stands at the position that its rank gives.
pub proof fn lemma_rank_position(m: PanelModel, i: int)
    requires
        0 <= i < m.elems.len(),
        m.visible_at(i),
    ensures
        m.rank(i) < m.shown().len(),
        m.shown()[m.rank(i) as int] == i,
{
    lemma_shown_prefix(m, i + 1, m.elems.len() as int);
    let a = m.shown_upto(i + 1);
    assert(a == m.shown_upto(i).push(i));
    assert(a[m.rank(i) as int] == i);
    assert(m.shown().take(a.len() as int)[m.rank(i) as int] == i);
}

/// Which entries are shown depends on the filter and on the paths alone.
pub proof fn lemma_same_listing(a: PanelModel, b: PanelModel, n: int)
    requires
        a.same_listing(b),
        0 <= n <= a.elems.len(),
    ensures
        a.shown_upto(n) == b.shown_upto(n),
    decreases n,
{
    if n > 0 {
        lemma_same_listing(a, b, n - 1);
        assert(a.elems[n - 1].hidden() == b.elems[n - 1].hidden());
    }
}

/// The entries that a search finds are among the entries that are shown.
pub proof fn lemma_matches_are_shown(m: PanelModel, pattern: Seq<char>, i: int)
    requires
        0 <= i < m.elems.len(),
        m.is_match(i, pattern),
    ensures
        m.shown().contains(i),
{
    lemma_shown_upto(m, m.elems.len() as int);
}

/// Setting the filter for hidden entries keeps every mark.
pub proof fn lemma_marks_persist(m: PanelModel, show: bool)
    ensures
        m.with_hidden(show).elems == m.elems,
        m.with_hidden(show).marked_paths() == m.marked_paths(),
        m.with_hidden(show).with_hidden(m.show_hidden).elems == m.elems,
{
    lemma_marked_paths_of_elems(m.with_hidden(show), m, m.elems.len() as int);
}

/// The marked paths are those of the entries alone.
pub proof fn lemma_marked_paths_of_elems(a: PanelModel, b: PanelModel, n: int)
    requires
        a.elems == b.elems,
    ensures
        a.marked_paths_upto(n) == b.marked_paths_upto(n),
    decreases n,
{
    if n > 0 {
        lemma_marked_paths_of_elems(a, b, n - 1);
    }
}

/// Where the selected entry is still shown under the new filter, it stays
/// selected.
pub proof fn lemma_hidden_keeps_selection(m: PanelModel, show: bool)
    requires
        m.wf(),
        m.selected_index() is Some,
        show || !m.elems[m.selected_index()->0].hidden(),
    ensures
        m.with_hidden(show).selected_index() == m.selected_index(),
        m.with_hidden(show).wf(),
{
    let i = m.selected_index()->0;
    lemma_shown_upto(m, m.elems.len() as int);
    let next = PanelModel { show_hidden: show, ..m };
    lemma_rank_position(next, i);
    lemma_same_listing(m.with_hidden(show), next, m.elems.len() as int);
}

/// Setting the filter gives a well-formed panel.
pub proof fn lemma_hidden_wf(m: PanelModel, show: bool)
    ensures
        m.with_hidden(show).wf(),
{
    let next = PanelModel { show_hidden: show, ..m };
    lemma_same_listing(m.with_hidden(show), next, m.elems.len() as int);
}

/// Marking the selected entry moves neither the cursor nor the filter: the
/// same entries are shown and the same entry is selected.
pub proof fn lemma_mark_keeps_selection(m: PanelModel)
    ensures
        m.marked_selected().shown() == m.shown(),
        m.marked_selected().selected_index() == m.selected_index(),
        m.marked_selected().selected_path() == m.selected_path(),
        m.marked_selected().wf() == m.wf(),
{
    lemma_shown_upto(m, m.elems.len() as int);
    match m.selected_index() {
        Some(i) => {
            let after = m.with_mark_at(i, true);
            assert(0 <= i < m.elems.len());
            assert forall|j: int| 0 <= j < m.elems.len() implies after.elems[j].path
                == m.elems[j].path by {
                if j == i {
                } else {
                }
            }
            lemma_same_listing(after, m, m.elems.len() as int);
        },
        None => {},
    }
}

/// The views of a list of entries.
pub open spec fn elem_views(v: Seq<DirElem>) -> Seq<ElemModel> {
    Seq::new(v.len(), |i: int| v[i]@)
}

/// Whether every entry of a list is well-formed.
pub open spec fn all_wf(v: Seq<DirElem>) -> bool {
    forall|i: int| 0 <= i < v.len() ==> (#[trigger] v[i]).wf()
}

/// The listing of `elems` under a filter, with the cursor on the first entry.
pub open spec fn listing(path: Seq<char>, elems: Seq<ElemModel>, show_hidden: bool) -> PanelModel {
    PanelModel { path, elems, show_hidden, cursor: 0, search: None }
}

/// A directory listing with a cursor.
#[derive(Debug, PartialEq, Eq)]
pub struct DirPanel {
    path: String,
    elements: Vec<DirElem>,
    visible: Vec<usize>,
    cursor: usize,
    show_hidden: bool,
    search: Option<String>,
}

impl View for DirPanel {
    type V = PanelModel;

    closed spec fn view(&self) -> PanelModel {
        PanelModel {
            path: self.path@,
            elems: elem_views(self.elements@),
            show_hidden: self.show_hidden,
            cursor: self.cursor as nat,
            search: opt_view(self.search),
        }
    }
}

/// The indices of the entries of `elements` that are shown under the filter,
/// and the number of them that lie below `target`.
fn shown_indices(elements: &Vec<DirElem>, show_hidden: bool, target: usize) -> (r: (
    Vec<usize>,
    usize,
))
    requires
        all_wf(elements@),
        target <= elements.len(),
    ensures
        r.0@.len() == listing(Seq::empty(), elem_views(elements@), show_hidden).shown().len(),
        forall|k: int|
            0 <= k < r.0@.len() ==> r.0@[k] as int == listing(
                Seq::empty(),
                elem_views(elements@),
                show_hidden,
            ).shown()[k],
        r.1 as nat == listing(Seq::empty(), elem_views(elements@), show_hidden).rank(target as int),
{
    let ghost m = listing(Seq::empty(), elem_views(elements@), show_hidden);
    let mut v: Vec<usize> = Vec::new();
    let mut rank: usize = 0;
    let mut i: usize = 0;
    while i < elements.len()
        invariant
            i <= elements.len(),
            target <= elements.len(),
            all_wf(elements@),
            m == listing(Seq::empty(), elem_views(elements@), show_hidden),
            v@.len() == m.shown_upto(i as int).len(),
            v@.len() <= i,
            forall|k: int| 0 <= k < v@.len() ==> v@[k] as int == m.shown_upto(i as int)[k],
            rank as nat == m.rank(if i <= target { i as int } else { target as int }),
        decreases elements.len() - i,
    {
        assert(elements@[i as int].wf());
        assert(m.elems[i as int] == elements@[i as int]@);
        if show_hidden || !elements[i].is_hidden() {
            v.push(i);
        }
        i += 1;
        if i <= target {
            rank = v.len();
        }
    }
    (v, rank)
}

impl DirPanel {
    /// The entries are well-formed, the list of shown entries is that of the
    /// model, and the cursor is in its bounds.
    pub closed spec fn wf(&self) -> bool {
        &&& all_wf(self.elements@)
        &&& self.visible@.len() == self@.shown().len()
        &&& forall|k: int|
            0 <= k < self.visible@.len() ==> self.visible@[k] as int == self@.shown()[k]
        &&& self@.wf()
    }

    /// A well-formed panel has a well-formed model.
    pub proof fn lemma_wf(&self)
        requires
            self.wf(),
        ensures
            self@.wf(),
    {
    }

    /// A panel for `path` without entries.
    pub fn empty(path: String) -> (p: DirPanel)
        ensures
            p.wf(),
            p@ == PanelModel::blank(path@),
    {
        let p = DirPanel {
            path,
            elements: Vec::new(),
            visible: Vec::new(),
            cursor: 0,
            show_hidden: false,
            search: None,
        };
        assert(p@.elems =~= Seq::empty());
        p
    }

    /// A panel for `path` that lists `elements`, with the cursor on the
    /// first entry that is shown.
    pub fn new(path: String, elements: Vec<DirElem>, show_hidden: bool) -> (p: DirPanel)
        requires
            all_wf(elements@),
        ensures
            p.wf(),
            p@ == listing(path@, elem_views(elements@), show_hidden),
    {
        let (visible, _) = shown_indices(&elements, show_hidden, 0);
        let p = DirPanel { path, elements, visible, cursor: 0, show_hidden, search: None };
        proof {
            lemma_same_listing(
                p@,
                listing(Seq::empty(), elem_views(elements@), show_hidden),
                p@.elems.len() as int,
            );
        }
        p
    }

    /// The path of the directory.
    pub fn path(&self) -> (p: &String)
        ensures
            p@ == self@.path,
    {
        &self.path
    }

    /// The entries, shown or not.
    pub fn elements(&self) -> (v: &Vec<DirElem>)
        requires
            self.wf(),
        ensures
            elem_views(v@) == self@.elems,
            all_wf(v@),
    {
        &self.elements
    }

    /// Whether hidden entries are shown.
    pub fn shows_hidden(&self) -> (b: bool)
        ensures
            b == self@.show_hidden,
    {
        self.show_hidden
    }

    /// The search text, while a search is under way.
    pub fn search(&self) -> (s: &Option<String>)
        ensures
            opt_view(*s) == self@.search,
    {
        &self.search
    }

    /// The index of the selected entry among all entries.
    pub fn selected_index(&self) -> (r: Option<usize>)
        requires
            self.wf(),
        ensures
            r matches Some(i) ==> self@.selected_index() == Some(i as int) && i < self@.elems.len(),
            r is None ==> self@.selected_index() is None,
    {
        proof {
            lemma_shown_upto(self@, self@.elems.len() as int);
        }
        if self.cursor < self.visible.len() {
            Some(self.visible[self.cursor])
        } else {
            None
        }
    }

    /// The selected entry.
    pub fn selected(&self) -> (r: Option<&DirElem>)
        requires
            self.wf(),
        ensures
            r matches Some(e) ==> self@.selected() == Some(e@) && e.wf(),
            r is None ==> self@.selected() is None,
    {
        match self.selected_index() {
            Some(i) => {
                assert(self.elements@[i as int].wf());
                Some(&self.elements[i])
            },
            None => None,
        }
    }

    /// The path of the selected entry.
    pub fn selected_path(&self) -> (r: Option<&String>)
        requires
            self.wf(),
        ensures
            crate::text::opt_ref_view(r) == self@.selected_path(),
    {
        match self.selected_index() {
            Some(i) => Some(self.elements[i].path()),
            None => None,
        }
    }

    /// The position of the cursor, counted from one, and the number of
    /// entries that are shown.
    pub fn index_vs_total(&self) -> (r: (usize, usize))
        requires
            self.wf(),
        ensures
            (r.0 as nat, r.1 as nat) == self@.position(),
    {
        if self.visible.len() == 0 {
            (0, 0)
        } else {
            (self.cursor + 1, self.visible.len())
        }
    }

    /// Moves the cursor up by `step` entries, stopping at the first; says
    /// whether it moved.
    pub fn up(&mut self, step: usize) -> (moved: bool)
        requires
            old(self).wf(),
        ensures
            final(self).wf(),
            final(self)@ == old(self)@.moved_up(step as nat),
            moved == (final(self)@ != old(self)@),
    {
        let target: usize = if step >= self.cursor {
            0
        } else {
            self.cursor - step
        };
        let moved = target != self.cursor;
        self.cursor = target;
        proof {
            lemma_same_listing(self@, old(self)@, self@.elems.len() as int);
        }
        moved
    }

    /// Moves the cursor down by `step` entries, stopping at the last; says
    /// whether it moved.
    pub fn down(&mut self, step: usize) -> (moved: bool)
        requires
            old(self).wf(),
        ensures
            final(self).wf(),
            final(self)@ == old(self)@.moved_down(step as nat),
            moved == (final(self)@ != old(self)@),
    {
        let count = self.visible.len();
        if count == 0 {
            return false;
        }
        let target: usize = if step >= count - self.cursor {
            count - 1
        } else {
            self.cursor + step
        };
        let moved = target != self.cursor;
        self.cursor = target;
        proof {
            lemma_same_listing(self@, old(self)@, self@.elems.len() as int);
        }
        moved
    }

    /// Puts the cursor on the first shown entry whose path is `path`; leaves
    /// it where no shown entry has that path.
    pub fn select_path(&mut self, path: &String)
        requires
            old(self).wf(),
        ensures
            final(self).wf(),
            final(self)@ == old(self)@.with_selected(path@),
    {
        proof {
            lemma_shown_upto(self@, self@.elems.len() as int);
        }
        let mut k: usize = 0;
        while k < self.visible.len()
            invariant
                *self == *old(self),
                self.wf(),
                k <= self.visible.len(),
                self@.find_shown(path@, 0) == self@.find_shown(path@, k as int),
                forall|j: int|
                    0 <= j < self@.shown().len() ==> 0 <= #[trigger] self@.shown()[j]
                        < self@.elems.len(),
            decreases self.visible.len() - k,
        {
            let i = self.visible[k];
            if *self.elements[i].path() == *path {
                self.cursor = k;
                proof {
                    lemma_same_listing(self@, old(self)@, self@.elems.len() as int);
                }
                return ;
            }
            k += 1;
        }
    }

    /// Sets whether hidden entries are shown. The selected entry stays
    /// selected where it is still shown; every mark is kept.
    pub fn set_hidden(&mut self, show_hidden: bool)
        requires
            old(self).wf(),
        ensures
            final(self).wf(),
            final(self)@ == old(self)@.with_hidden(show_hidden),
    {
        let selected = self.selected_index();
        let target: usize = match selected {
            Some(i) => i,
            None => 0,
        };
        let (visible, rank) = shown_indices(&self.elements, show_hidden, target);
        let count = visible.len();
        self.visible = visible;
        self.show_hidden = show_hidden;
        self.cursor = if selected.is_none() || count == 0 {
            0
        } else if rank >= count {
            count - 1
        } else {
            rank
        };
        proof {
            let next = PanelModel { show_hidden, ..old(self)@ };
            let plain = listing(Seq::empty(), elem_views(self.elements@), show_hidden);
            lemma_same_listing(next, plain, next.elems.len() as int);
            lemma_same_listing(self@, plain, next.elems.len() as int);
            lemma_same_listing(next, plain, target as int);
            lemma_hidden_wf(old(self)@, show_hidden);
        }
    }

    /// Marks the selected entry, if there is one.
    pub fn mark_selected_item(&mut self)
        requires
            old(self).wf(),
        ensures
            final(self).wf(),
            final(self)@ == old(self)@.marked_selected(),
    {
        match self.selected_index() {
            Some(i) => {
                assert(self.elements@[i as int].wf());
                self.elements[i].mark();
                proof {
                    assert(self@.elems =~= old(self)@.with_mark_at(i as int, true).elems);
                    lemma_same_listing(self@, old(self)@, self@.elems.len() as int);
                }
            },
            None => {},
        }
    }

    /// Takes the mark from every entry.
    pub fn unmark_all(&mut self)
        requires
            old(self).wf(),
        ensures
            final(self).wf(),
            final(self)@ == old(self)@.unmarked(),
    {
        let mut i: usize = 0;
        while i < self.elements.len()
            invariant
                i <= self.elements.len(),
                self.elements.len() == old(self).elements.len(),
                self.path == old(self).path,
                self.visible == old(self).visible,
                self.cursor == old(self).cursor,
                self.show_hidden == old(self).show_hidden,
                self.search == old(self).search,
                all_wf(self.elements@),
                forall|j: int|
                    0 <= j < i ==> (#[trigger] self.elements@[j])@ == old(self).elements@[j]@.with_mark(
                        false,
                    ),
                forall|j: int|
                    i <= j < self.elements.len() ==> (#[trigger] self.elements@[j])@ == old(
                        self,
                    ).elements@[j]@,
            decreases self.elements.len() - i,
        {
            assert(self.elements@[i as int].wf());
            self.elements[i].unmark();
            i += 1;
        }
        proof {
            assert(self@.elems =~= old(self)@.unmarked().elems);
            lemma_same_listing(self@, old(self)@, self@.elems.len() as int);
        }
    }

    /// Marks exactly the entries that a search for `pattern` finds.
    fn mark_matches(&mut self, pattern: &str)
        requires
            old(self).wf(),
        ensures
            final(self).wf(),
            final(self)@ == old(self)@.search_marked(pattern@),
    {
        let mut i: usize = 0;
        while i < self.elements.len()
            invariant
                i <= self.elements.len(),
                self.elements.len() == old(self).elements.len(),
                self.path == old(self).path,
                self.visible == old(self).visible,
                self.cursor == old(self).cursor,
                self.show_hidden == old(self).show_hidden,
                self.search == old(self).search,
                all_wf(self.elements@),
                forall|j: int|
                    0 <= j < i ==> (#[trigger] self.elements@[j])@ == old(self).elements@[j]@.with_mark(
                        old(self)@.is_match(j, pattern@),
                    ),
                forall|j: int|
                    i <= j < self.elements.len() ==> (#[trigger] self.elements@[j])@ == old(
                        self,
                    ).elements@[j]@,
            decreases self.elements.len() - i,
        {
            assert(self.elements@[i as int].wf());
            assert(old(self)@.elems[i as int] == old(self).elements@[i as int]@);
            let shown = self.show_hidden || !self.elements[i].is_hidden();
            let found = shown && self.elements[i].matches(pattern);
            self.elements[i].set_mark(found);
            i += 1;
        }
        proof {
            assert(self@.elems =~= old(self)@.search_marked(pattern@).elems);
            lemma_same_listing(self@, old(self)@, self@.elems.len() as int);
        }
    }

    /// Searches for `pattern`: the entries that it finds are marked, all
    /// others are not.
    pub fn update_search(&mut self, pattern: String)
        requires
            old(self).wf(),
        ensures
            final(self).wf(),
            final(self)@ == old(self)@.searching(pattern@),
    {
        self.mark_matches(pattern.as_str());
        let ghost marked = self@;
        self.search = Some(pattern);
        proof {
            lemma_same_listing(self@, marked, self@.elems.len() as int);
        }
    }

    /// Commits the search for `pattern`: the entries that it finds stay
    /// marked, and the search text is dropped.
    pub fn finish_search(&mut self, pattern: &str)
        requires
            old(self).wf(),
        ensures
            final(self).wf(),
            final(self)@ == old(self)@.search_finished(pattern@),
    {
        self.mark_matches(pattern);
        let ghost marked = self@;
        self.search = None;
        proof {
            lemma_same_listing(self@, marked, self@.elems.len() as int);
        }
    }

    /// Drops the search text.
    pub fn clear_search(&mut self)
        requires
            old(self).wf(),
        ensures
            final(self).wf(),
            final(self)@ == old(self)@.search_cleared(),
    {
        self.search = None;
        proof {
            lemma_same_listing(self@, old(self)@, self@.elems.len() as int);
        }
    }

    /// The paths of the marked entries, in order.
    pub fn marked_paths(&self) -> (r: Vec<String>)
        requires
            self.wf(),
        ensures
            crate::text::views(r@) == self@.marked_paths(),
    {
        let mut r: Vec<String> = Vec::new();
        let mut i: usize = 0;
        while i < self.elements.len()
            invariant
                i <= self.elements.len(),
                crate::text::views(r@) == self@.marked_paths_upto(i as int),
            decreases self.elements.len() - i,
        {
            assert(self@.elems[i as int] == self.elements@[i as int]@);
            if self.elements[i].is_marked() {
                r.push(self.elements[i].path().clone());
                assert(crate::text::views(r@) =~= self@.marked_paths_upto(i as int).push(
                    self@.elems[i as int].path,
                ));
            }
            i += 1;
        }
        r
    }

    /// Whether the entry at position `k` among the shown ones is marked.
    fn marked_at(&self, k: usize) -> (m: bool)
        requires
            self.wf(),
            k < self.visible.len(),
        ensures
            m == self@.marked_at_position(k as int),
    {
        proof {
            lemma_shown_upto(self@, self@.elems.len() as int);
        }
        self.elements[self.visible[k]].is_marked()
    }

    /// Puts the cursor on the next marked entry after it, going on from the
    /// first entry where none follows.
    pub fn select_next_marked(&mut self)
        requires
            old(self).wf(),
        ensures
            final(self).wf(),
            final(self)@ == old(self)@.next_marked(),
    {
        let count = self.visible.len();
        if count == 0 {
            return ;
        }
        let mut k: usize = self.cursor + 1;
        while k < count
            invariant
                *self == *old(self),
                self.wf(),
                count == self.visible.len(),
                self.cursor < k <= count,
                self@.first_marked_from(self.cursor as int + 1) == self@.first_marked_from(k as int),
            decreases count - k,
        {
            if self.marked_at(k) {
                self.cursor = k;
                proof {
                    lemma_same_listing(self@, old(self)@, self@.elems.len() as int);
                }
                return ;
            }
            k += 1;
        }
        k = 0;
        while k < count
            invariant
                *self == *old(self),
                self.wf(),
                count == self.visible.len(),
                k <= count,
                self@.first_marked_from(self.cursor as int + 1) is None,
                self@.first_marked_from(0) == self@.first_marked_from(k as int),
            decreases count - k,
        {
            if self.marked_at(k) {
                self.cursor = k;
                proof {
                    lemma_same_listing(self@, old(self)@, self@.elems.len() as int);
                }
                return ;
            }
            k += 1;
        }
    }

    /// Puts the cursor on the last marked entry before it, going on from the
    /// last entry where none precedes.
    pub fn select_prev_marked(&mut self)
        requires
            old(self).wf(),
        ensures
            final(self).wf(),
            final(self)@ == old(self)@.prev_marked(),
    {
        let count = self.visible.len();
        if count == 0 {
            return ;
        }
        let mut k: usize = self.cursor;
        while k > 0
            invariant
                *self == *old(self),
                self.wf(),
                count == self.visible.len(),
                k <= self.cursor < count,
                self@.last_marked_before(self.cursor as int) == self@.last_marked_before(k as int),
            decreases k,
        {
            if self.marked_at(k - 1) {
                self.cursor = k - 1;
                proof {
                    lemma_same_listing(self@, old(self)@, self@.elems.len() as int);
                }
                return ;
            }
            k -= 1;
        }
        k = count;
        while k > 0
            invariant
                *self == *old(self),
                self.wf(),
                count == self.visible.len(),
                k <= count,
                self@.last_marked_before(self.cursor as int) is None,
                self@.last_marked_before(count as int) == self@.last_marked_before(k as int),
            decreases k,
        {
            if self.marked_at(k - 1) {
                self.cursor = k - 1;
                proof {
                    lemma_same_listing(self@, old(self)@, self@.elems.len() as int);
                }
                return ;
            }
            k -= 1;
        }
    }

    /// A copy of the panel.
    pub fn duplicate(&self) -> (p: DirPanel)
        requires
            self.wf(),
        ensures
            p.wf(),
            p@ == self@,
    {
        let mut elements: Vec<DirElem> = Vec::new();
        let mut i: usize = 0;
        while i < self.elements.len()
            invariant
                i <= self.elements.len(),
                self.wf(),
                elements.len() == i,
                all_wf(elements@),
                forall|j: int| 0 <= j < i ==> (#[trigger] elements@[j])@ == self.elements@[j]@,
            decreases self.elements.len() - i,
        {
            assert(self.elements@[i as int].wf());
            elements.push(self.elements[i].duplicate());
            i += 1;
        }
        let search = match &self.search {
            Some(s) => Some(s.clone()),
            None => None,
        };
        let p = DirPanel {
            path: self.path.clone(),
            elements,
            visible: self.visible.clone(),
            cursor: self.cursor,
            show_hidden: self.show_hidden,
            search,
        };
        proof {
            assert(p@.elems =~= self@.elems);
            assert(p.visible@ =~= self.visible@);
        }
        p
    }
}

impl Panel for DirPanel {
    open spec fn valid(&self) -> bool {
        self.wf()
    }

    /// Until a directory is loaded, an empty listing is shown; without a
    /// path, an empty listing of the empty path.
    open spec fn blank(path: Option<Seq<char>>) -> PanelModel {
        match path {
            Some(p) => PanelModel::blank(p),
            None => PanelModel::blank(Seq::empty()),
        }
    }

    open spec fn location(model: PanelModel) -> Option<Seq<char>> {
        Some(model.path)
    }

    fn placeholder(path: Option<&String>) -> (p: DirPanel) {
        match path {
            Some(p) => DirPanel::empty(p.clone()),
            None => DirPanel::empty(String::new()),
        }
    }

    fn copy(&self) -> (p: DirPanel) {
        self.duplicate()
    }

    fn shown_path(&self) -> (r: Option<String>) {
        Some(self.path().clone())
    }
}

} // verus!
