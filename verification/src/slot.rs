//! Versioned slots: a panel together with the state under which its latest
//! load was requested, and the cache that slots read from.

use vstd::prelude::*;
use crate::panel::Panel;
use crate::text::opt_view;

verus! {

/// The generation that follows `generation`.
pub open spec fn next_generation(generation: u64) -> u64 {
    if generation == u64::MAX {
        0
    } else {
        (generation + 1) as u64
    }
}

/// What a panel state is: a path and the generation of a request.
pub struct StateModel {
    pub path: Option<Seq<char>>,
    pub generation: u64,
}

/// The identity of a load request: the path that it asks for and the
/// generation that the slot gave it.
#[derive(Debug, PartialEq, Eq)]
pub struct PanelState {
    pub path: Option<String>,
    pub generation: u64,
}

impl View for PanelState {
    type V = StateModel;

    open spec fn view(&self) -> StateModel {
        StateModel { path: opt_view(self.path), generation: self.generation }
    }
}

impl PanelState {
    /// The state of a slot that has requested nothing yet.
    pub fn new() -> (s: PanelState)
        ensures
            s@ == (StateModel { path: None, generation: 0 }),
    {
        PanelState { path: None, generation: 0 }
    }

    /// Whether two states are the same: the same path and the same
    /// generation.
    pub fn same(&self, other: &PanelState) -> (eq: bool)
        ensures
            eq == (self@ == other@),
    {
        if self.generation != other.generation {
            return false;
        }
        match (&self.path, &other.path) {
            (Some(a), Some(b)) => *a == *b,
            (None, None) => true,
            _ => false,
        }
    }

    /// A copy of the state.
    pub fn duplicate(&self) -> (s: PanelState)
        ensures
            s@ == self@,
    {
        let path = match &self.path {
            Some(p) => Some(p.clone()),
            None => None,
        };
        PanelState { path, generation: self.generation }
    }
}

/// What a load request is.
pub struct RequestModel {
    pub path: Seq<char>,
    pub state: StateModel,
    pub delayed: bool,
}

/// A request to load the panel for `path`. The worker hands `state` back
/// with the panel. A delayed request is sent only after a short quiet
/// period, and only if the slot has not advanced since.
#[derive(Debug, PartialEq, Eq)]
pub struct Request {
    pub path: String,
    pub state: PanelState,
    pub delayed: bool,
}

impl View for Request {
    type V = RequestModel;

    open spec fn view(&self) -> RequestModel {
        RequestModel { path: self.path@, state: self.state@, delayed: self.delayed }
    }
}

/// The view of an optional request.
pub open spec fn opt_request_view(r: Option<Request>) -> Option<RequestModel> {
    match r {
        Some(r) => Some(r@),
        None => None,
    }
}

/// The panels that were loaded before, by path.
#[derive(Debug)]
pub struct PanelCache<P> {
    keys: Vec<String>,
    panels: Vec<P>,
}

impl<P: Panel> View for PanelCache<P> {
    type V = Map<Seq<char>, P::V>;

    closed spec fn view(&self) -> Map<Seq<char>, P::V> {
        Map::new(
            |k: Seq<char>| exists|i: int| 0 <= i < self.keys.len() && self.keys[i]@ == k,
            |k: Seq<char>| self.panels[choose|i: int| 0 <= i < self.keys.len() && self.keys[i]@ == k]@,
        )
    }
}

impl<P: Panel> PanelCache<P> {
    /// Each key has one panel, no key occurs twice, and the panels are valid.
    pub closed spec fn wf(&self) -> bool {
        &&& self.keys.len() == self.panels.len()
        &&& forall|i: int, j: int|
            0 <= i < j < self.keys.len() ==> self.keys[i]@ != self.keys[j]@
        &&& forall|i: int| 0 <= i < self.panels.len() ==> (#[trigger] self.panels[i]).valid()
    }

    /// An empty cache.
    pub fn new() -> (c: PanelCache<P>)
        ensures
            c.wf(),
            c@ == Map::<Seq<char>, P::V>::empty(),
    {
        let c = PanelCache { keys: Vec::new(), panels: Vec::new() };
        assert(c@ =~= Map::<Seq<char>, P::V>::empty());
        c
    }

    /// The index of the entry for `key`.
    fn position(&self, key: &String) -> (r: Option<usize>)
        requires
            self.wf(),
        ensures
            r matches Some(i) ==> i < self.keys.len() && self.keys[i as int]@ == key@
                && self@.contains_key(key@) && self@[key@] == self.panels[i as int]@,
            r is None ==> !self@.contains_key(key@),
    {
        let mut i: usize = 0;
        while i < self.keys.len()
            invariant
                i <= self.keys.len(),
                self.wf(),
                forall|j: int| 0 <= j < i ==> self.keys[j]@ != key@,
            decreases self.keys.len() - i,
        {
            if self.keys[i] == *key {
                return Some(i);
            }
            i += 1;
        }
        None
    }

    /// A copy of the panel cached for `key`, if there is one.
    pub fn get(&self, key: &String) -> (r: Option<P>)
        requires
            self.wf(),
        ensures
            r is Some <==> self@.contains_key(key@),
            r matches Some(p) ==> p.valid() && p@ == self@[key@],
    {
        match self.position(key) {
            Some(i) => Some(self.panels[i].copy()),
            None => None,
        }
    }

    /// Caches `panel` for `key`, in place of what was cached for it.
    pub fn insert(&mut self, key: String, panel: P)
        requires
            old(self).wf(),
            panel.valid(),
        ensures
            final(self).wf(),
            final(self)@ == old(self)@.insert(key@, panel@),
    {
        match self.position(&key) {
            Some(i) => {
                self.panels[i] = panel;
                proof {
                    assert forall|k: Seq<char>| final(self)@.contains_key(k) implies #[trigger] final(self)@[k]
                        == old(self)@.insert(key@, panel@)[k] by {
                        let j = choose|j: int| 0 <= j < self.keys.len() && self.keys[j]@ == k;
                        assert(0 <= j < self.keys.len() && self.keys[j]@ == k);
                    }
                    assert(final(self)@ =~= old(self)@.insert(key@, panel@));
                }
            },
            None => {
                self.keys.push(key);
                self.panels.push(panel);
                proof {
                    let n = old(self).keys.len() as int;
                    assert(self.keys[n]@ == key@);
                    let after = final(self)@;
                    assert forall|k: Seq<char>|
                        old(self)@.insert(key@, panel@).contains_key(k) implies #[trigger] after.contains_key(k) by {
                        if k != key@ {
                            let j = choose|j: int|
                                0 <= j < old(self).keys.len() && old(self).keys[j]@ == k;
                            assert(self.keys[j]@ == k);
                        }
                    }
                    assert forall|k: Seq<char>| final(self)@.contains_key(k) implies #[trigger] final(self)@[k]
                        == old(self)@.insert(key@, panel@)[k] by {
                        let j = choose|j: int| 0 <= j < self.keys.len() && self.keys[j]@ == k;
                        assert(0 <= j < self.keys.len() && self.keys[j]@ == k);
                        if j < n {
                            assert(old(self).keys[j]@ == k);
                        }
                    }
                    assert(final(self)@ =~= old(self)@.insert(key@, panel@));
                }
            },
        }
    }
}

/// What a slot is: the panel that it shows, the state of its latest
/// request, and whether it is frozen.
pub struct SlotModel<V> {
    pub panel: V,
    pub state: StateModel,
    pub frozen: bool,
}

impl<V> SlotModel<V> {
    /// Whether a completion that carries `state` is applied: the slot is
    /// not frozen and `state` is the state of its latest request.
    pub open spec fn accepts(self, state: StateModel) -> bool {
        !self.frozen && state == self.state
    }

    /// The slot with `panel` in it, under the next generation.
    pub open spec fn holding(self, panel: V, path: Option<Seq<char>>) -> SlotModel<V> {
        SlotModel {
            panel,
            state: StateModel { path, generation: next_generation(self.state.generation) },
            frozen: self.frozen,
        }
    }

    /// The slot under the next generation, with the same panel and path.
    pub open spec fn advanced(self) -> SlotModel<V> {
        self.holding(self.panel, self.state.path)
    }

    /// The slot with its frozen flag set to `frozen`.
    pub open spec fn with_frozen(self, frozen: bool) -> SlotModel<V> {
        SlotModel { frozen, ..self }
    }

    /// The slot with `panel` in place of its panel.
    pub open spec fn showing(self, panel: V) -> SlotModel<V> {
        SlotModel { panel, ..self }
    }

    /// The request that asks for the panel of the slot's path under the
    /// slot's state; none where the slot has no path.
    pub open spec fn request(self, delayed: bool) -> Option<RequestModel> {
        match self.state.path {
            Some(path) => Some(RequestModel { path, state: self.state, delayed }),
            None => None,
        }
    }
}

/// The panel that a slot shows for `path` at once: the cached panel where
/// there is one, the placeholder otherwise.
pub open spec fn first_sight<P: Panel>(cache: Map<Seq<char>, P::V>, path: Option<Seq<char>>) -> P::V {
    match path {
        Some(p) => if cache.contains_key(p) {
            cache[p]
        } else {
            P::blank(path)
        },
        None => P::blank(path),
    }
}

/// The slot after it has been pointed at `path`.
pub open spec fn pointed<P: Panel>(
    slot: SlotModel<P::V>,
    cache: Map<Seq<char>, P::V>,
    path: Option<Seq<char>>,
) -> SlotModel<P::V> {
    slot.holding(first_sight::<P>(cache, path), path)
}

/// The cache after a panel has been put into a slot: the panel is cached
/// under the path that it shows.
pub open spec fn cached<P: Panel>(cache: Map<Seq<char>, P::V>, panel: P::V) -> Map<
    Seq<char>,
    P::V,
> {
    match P::location(panel) {
        Some(path) => cache.insert(path, panel),
        None => cache,
    }
}

/// A slot that holds a panel and gives each of its load requests a state of
/// its own.
#[derive(Debug)]
pub struct ManagedPanel<P> {
    pub panel: P,
    pub state: PanelState,
    pub frozen: bool,
}

impl<P: Panel> View for ManagedPanel<P> {
    type V = SlotModel<P::V>;

    open spec fn view(&self) -> SlotModel<P::V> {
        SlotModel { panel: self.panel@, state: self.state@, frozen: self.frozen }
    }
}

impl<P: Panel> ManagedPanel<P> {
    /// The panel in the slot is valid.
    pub open spec fn wf(&self) -> bool {
        self.panel.valid()
    }

    /// A slot that shows the placeholder for no path and has requested
    /// nothing.
    pub fn new() -> (slot: ManagedPanel<P>)
        ensures
            slot.wf(),
            slot@ == (SlotModel {
                panel: P::blank(None),
                state: StateModel { path: None, generation: 0 },
                frozen: false,
            }),
    {
        ManagedPanel { panel: P::placeholder(None), state: PanelState::new(), frozen: false }
    }

    /// The panel in the slot.
    pub fn panel(&self) -> (p: &P)
        ensures
            *p == self.panel,
    {
        &self.panel
    }

    /// The panel in the slot, to change it in place.
    pub fn panel_mut(&mut self) -> (p: &mut P)
        ensures
            *p == old(self).panel,
            final(self).panel == *final(p),
            final(self).state == old(self).state,
            final(self).frozen == old(self).frozen,
    {
        &mut self.panel
    }

    /// The state of the slot's latest request.
    pub fn state(&self) -> (s: &PanelState)
        ensures
            *s == self.state,
    {
        &self.state
    }

    /// Whether the slot is frozen.
    pub fn is_frozen(&self) -> (f: bool)
        ensures
            f == self.frozen,
    {
        self.frozen
    }

    /// Advances the generation and binds the slot to `path`.
    fn advance(&mut self, path: Option<String>)
        ensures
            final(self).panel == old(self).panel,
            final(self).frozen == old(self).frozen,
            final(self).state@ == (StateModel {
                path: opt_view(path),
                generation: next_generation(old(self).state.generation),
            }),
    {
        let generation = if self.state.generation == u64::MAX {
            0
        } else {
            self.state.generation + 1
        };
        self.state = PanelState { path, generation };
    }

    /// The request for the slot's path under its state.
    fn request(&self, delayed: bool) -> (r: Option<Request>)
        ensures
            opt_request_view(r) == self@.request(delayed),
    {
        match &self.state.path {
            Some(path) => Some(Request { path: path.clone(), state: self.state.duplicate(), delayed }),
            None => None,
        }
    }

    /// Points the slot at `path`, at once or delayed.
    fn point(&mut self, cache: &PanelCache<P>, path: Option<String>, delayed: bool) -> (r: Option<
        Request,
    >)
        requires
            cache.wf(),
        ensures
            final(self).wf(),
            final(self)@ == pointed::<P>(old(self)@, cache@, opt_view(path)),
            opt_request_view(r) == final(self)@.request(delayed),
    {
        let panel = match &path {
            Some(p) => match cache.get(p) {
                Some(panel) => panel,
                None => P::placeholder(Some(p)),
            },
            None => P::placeholder(None),
        };
        self.panel = panel;
        self.advance(path);
        self.request(delayed)
    }

    /// Shows the panel for `path` at once: the cached panel where there is
    /// one, a placeholder otherwise. The generation advances, and the
    /// request to load the panel is returned; none where `path` is none.
    pub fn new_panel_instant(&mut self, cache: &PanelCache<P>, path: Option<String>) -> (r: Option<
        Request,
    >)
        requires
            cache.wf(),
        ensures
            final(self).wf(),
            final(self)@ == pointed::<P>(old(self)@, cache@, opt_view(path)),
            opt_request_view(r) == final(self)@.request(false),
    {
        self.point(cache, path, false)
    }

    /// As `new_panel_instant`, but the request is a delayed one: the
    /// generation advances now, the request is sent after a quiet period.
    pub fn new_panel_delayed(&mut self, cache: &PanelCache<P>, path: Option<String>) -> (r: Option<
        Request,
    >)
        requires
            cache.wf(),
        ensures
            final(self).wf(),
            final(self)@ == pointed::<P>(old(self)@, cache@, opt_view(path)),
            opt_request_view(r) == final(self)@.request(true),
    {
        self.point(cache, path, true)
    }

    /// Puts `panel` into the slot under the next generation, binds the slot
    /// to the path that the panel shows, and caches the panel under it.
    pub fn update_panel(&mut self, cache: &mut PanelCache<P>, panel: P)
        requires
            old(cache).wf(),
            panel.valid(),
        ensures
            final(cache).wf(),
            final(self).wf(),
            final(self)@ == old(self)@.holding(panel@, P::location(panel@)),
            final(cache)@ == cached::<P>(old(cache)@, panel@),
    {
        let path = panel.shown_path();
        match &path {
            Some(p) => {
                cache.insert(p.clone(), panel.copy());
            },
            None => {},
        }
        self.panel = panel;
        self.advance(path);
    }

    /// Whether a completion that carries `state` is applied: the slot is
    /// not frozen and `state` is the state of its latest request.
    pub fn check_update(&self, state: &PanelState) -> (accepted: bool)
        ensures
            accepted == self@.accepts(state@),
    {
        !self.frozen && state.same(&self.state)
    }

    /// Whether a delayed request that carries `state` is still to be sent:
    /// the slot has not advanced since.
    pub fn is_current(&self, state: &PanelState) -> (current: bool)
        ensures
            current == (state@ == self@.state),
    {
        state.same(&self.state)
    }

    /// Freezes the slot: no completion is applied until it is unfrozen.
    pub fn freeze(&mut self)
        ensures
            *final(self) == (ManagedPanel { frozen: true, ..*old(self) }),
            final(self)@ == old(self)@.with_frozen(true),
    {
        self.frozen = true;
    }

    /// Ends the freeze.
    pub fn unfreeze(&mut self)
        ensures
            *final(self) == (ManagedPanel { frozen: false, ..*old(self) }),
            final(self)@ == old(self)@.with_frozen(false),
    {
        self.frozen = false;
    }

    /// Asks again for the panel of the slot's path, under the next
    /// generation.
    pub fn reload(&mut self) -> (r: Option<Request>)
        ensures
            final(self).panel == old(self).panel,
            final(self)@ == old(self)@.advanced(),
            opt_request_view(r) == final(self)@.request(false),
    {
        let path = match &self.state.path {
            Some(p) => Some(p.clone()),
            None => None,
        };
        self.advance(path);
        self.request(false)
    }
}

/// A slot never takes the state that it had before its generation advanced:
/// what was requested before is stale from then on.
pub proof fn lemma_advance_is_fresh<V>(slot: SlotModel<V>, panel: V, path: Option<Seq<char>>)
    ensures
        slot.holding(panel, path).state != slot.state,
        !slot.holding(panel, path).accepts(slot.state),
        slot.state.generation < u64::MAX ==> slot.holding(panel, path).state.generation
            > slot.state.generation,
{
}

/// A slot applies exactly the completion that carries its current state,
/// and none while it is frozen.
pub proof fn lemma_accepts_exactly<V>(slot: SlotModel<V>, state: StateModel)
    ensures
        slot.accepts(state) <==> (state == slot.state && !slot.frozen),
        slot.with_frozen(true).accepts(state) == false,
        slot.with_frozen(false).accepts(state) == (state == slot.state),
{
}

} // verus!
