use vstd::prelude::*;

use std::collections::HashMap;

verus! {

broadcast use vstd::std_specs::hash::group_hash_axioms;

/// One pane as the topology source reports it.
pub struct PaneInfo {
    pub id: u32,
    pub title: String,
    pub is_focused: bool,
    pub is_floating: bool,
    /// Plugin-hosted panes are never tracked by the registry.
    pub is_plugin: bool,
}

impl PaneInfo {
    pub fn new(id: u32, title: String, is_focused: bool, is_floating: bool, is_plugin: bool) -> (r:
        PaneInfo)
        ensures
            r == (PaneInfo { id, title, is_focused, is_floating, is_plugin }),
    {
        PaneInfo { id, title, is_focused, is_floating, is_plugin }
    }

    pub fn duplicate(&self) -> (r: PaneInfo)
        ensures
            r == *self,
    {
        PaneInfo {
            id: self.id,
            title: self.title.clone(),
            is_focused: self.is_focused,
            is_floating: self.is_floating,
            is_plugin: self.is_plugin,
        }
    }
}

/// The entries of `s` that are not plugin-hosted, in order.
pub open spec fn terminal_panes(s: Seq<PaneInfo>) -> Seq<PaneInfo>
    decreases s.len(),
{
    if s.len() == 0 {
        Seq::empty()
    } else if s.last().is_plugin {
        terminal_panes(s.drop_last())
    } else {
        terminal_panes(s.drop_last()).push(s.last())
    }
}

/// The non-plugin entries of a snapshot, tab after tab, each tab in delivery order.
pub open spec fn snapshot_panes(tabs: Seq<(usize, Seq<PaneInfo>)>) -> Seq<PaneInfo>
    decreases tabs.len(),
{
    if tabs.len() == 0 {
        Seq::empty()
    } else {
        snapshot_panes(tabs.drop_last()) + terminal_panes(tabs.last().1)
    }
}

/// Some entry of `s` carries `id`.
pub open spec fn has_id(s: Seq<PaneInfo>, id: u32) -> bool {
    exists|j: int| 0 <= j < s.len() && (#[trigger] s[j]).id == id
}

/// `k` is the position of the last entry of `s` that carries `id`.
pub open spec fn is_last_with_id(s: Seq<PaneInfo>, id: u32, k: int) -> bool {
    &&& 0 <= k < s.len()
    &&& s[k].id == id
    &&& forall|j: int| k < j < s.len() ==> (#[trigger] s[j]).id != id
}

/// `k` is the position of the first entry of `s` titled `title`.
pub open spec fn is_first_with_title(s: Seq<PaneInfo>, title: Seq<char>, k: int) -> bool {
    &&& 0 <= k < s.len()
    &&& s[k].title@ == title
    &&& forall|j: int| 0 <= j < k ==> (#[trigger] s[j]).title@ != title
}

/// The entries of `s` whose title starts with `prefix`, in order.
pub open spec fn with_prefix(s: Seq<PaneInfo>, prefix: Seq<char>) -> Seq<PaneInfo>
    decreases s.len(),
{
    if s.len() == 0 {
        Seq::empty()
    } else if prefix.is_prefix_of(s.last().title@) {
        with_prefix(s.drop_last(), prefix).push(s.last())
    } else {
        with_prefix(s.drop_last(), prefix)
    }
}

/// A complete topology snapshot: for each tab index, the panes of that tab.
/// Tabs are kept in ascending index order, each index at most once.
pub struct PaneManifest {
    tab_indices: Vec<usize>,
    tab_panes: Vec<Vec<PaneInfo>>,
}

impl View for PaneManifest {
    type V = Seq<(usize, Seq<PaneInfo>)>;

    closed spec fn view(&self) -> Seq<(usize, Seq<PaneInfo>)> {
        Seq::new(self.tab_indices@.len(), |i: int| (self.tab_indices@[i], self.tab_panes@[i]@))
    }
}

/// The tab indices of `tabs` strictly increase.
pub open spec fn tabs_ascending(tabs: Seq<(usize, Seq<PaneInfo>)>) -> bool {
    forall|i: int, j: int| 0 <= i < j < tabs.len() ==> tabs[i].0 < tabs[j].0
}

/// The snapshot as a mapping from tab index to that tab's panes.
pub open spec fn tabs_map(tabs: Seq<(usize, Seq<PaneInfo>)>) -> Map<usize, Seq<PaneInfo>> {
    Map::new(
        |t: usize| exists|i: int| 0 <= i < tabs.len() && tabs[i].0 == t,
        |t: usize| tabs[choose|i: int| 0 <= i < tabs.len() && tabs[i].0 == t].1,
    )
}

impl PaneManifest {
    #[verifier::type_invariant]
    closed spec fn well_formed(&self) -> bool {
        &&& self.tab_indices@.len() == self.tab_panes@.len()
        &&& forall|i: int, j: int|
            0 <= i < j < self.tab_indices@.len() ==> self.tab_indices@[i] < self.tab_indices@[j]
    }

    pub fn new() -> (r: PaneManifest)
        ensures
            r@.len() == 0,
    {
        PaneManifest { tab_indices: Vec::new(), tab_panes: Vec::new() }
    }

    /// Sets the panes of tab `tab`, replacing what that tab held before.
    pub fn insert(&mut self, tab: usize, panes: Vec<PaneInfo>)
        ensures
            tabs_map(final(self)@) == tabs_map(old(self)@).insert(tab, panes@),
            tabs_ascending(final(self)@),
    {
        proof {
            use_type_invariant(&*self);
        }
        let mut m = PaneManifest::new();
        std::mem::swap(&mut m, self);
        proof {
            use_type_invariant(&m);
        }
        let ghost old_view = m@;
        let PaneManifest { mut tab_indices, mut tab_panes } = m;
        let n = tab_indices.len();
        let mut i: usize = 0;
        while i < n && tab_indices[i] < tab
            invariant
                n == tab_indices@.len(),
                i <= n,
                forall|j: int| 0 <= j < i ==> tab_indices@[j] < tab,
            decreases n - i,
        {
            i = i + 1;
        }
        if i < n && tab_indices[i] == tab {
            tab_panes.set(i, panes);
        } else {
            tab_indices.insert(i, tab);
            tab_panes.insert(i, panes);
        }
        let r = PaneManifest { tab_indices, tab_panes };
        assert(tabs_map(r@) =~= tabs_map(old_view).insert(tab, panes@)) by {
            assert forall|t: usize| #[trigger]
                tabs_map(r@).contains_key(t) == tabs_map(old_view).insert(
                    tab,
                    panes@,
                ).contains_key(t) by {
                if tabs_map(old_view).contains_key(t) && t != tab {
                    let k = choose|k: int| 0 <= k < old_view.len() && old_view[k].0 == t;
                    if k < i {
                        assert(r@[k].0 == t);
                    } else if i < n && old_view[i as int].0 == tab {
                        assert(r@[k].0 == t);
                    } else {
                        assert(r@[k + 1].0 == t);
                    }
                }
                if tab == t {
                    assert(r@[i as int].0 == t);
                }
                if tabs_map(r@).contains_key(t) && t != tab {
                    let k = choose|k: int| 0 <= k < r@.len() && r@[k].0 == t;
                    if k < i {
                        assert(old_view[k].0 == t);
                    } else if i < n && old_view[i as int].0 == tab {
                        assert(old_view[k].0 == t);
                    } else {
                        assert(old_view[k - 1].0 == t);
                    }
                }
            }
            assert forall|t: usize| #[trigger] tabs_map(r@).contains_key(t) implies tabs_map(
                r@,
            )[t] == tabs_map(old_view).insert(tab, panes@)[t] by {
                let k = choose|k: int| 0 <= k < r@.len() && r@[k].0 == t;
                if t == tab {
                    assert(k == i);
                } else {
                    let k0 = choose|k: int| 0 <= k < old_view.len() && old_view[k].0 == t;
                    if k < i {
                        assert(k0 == k);
                    } else if i < n && old_view[i as int].0 == tab {
                        assert(k0 == k);
                    } else {
                        assert(k0 == k - 1);
                    }
                }
            }
        }
        proof {
            use_type_invariant(&r);
        }
        *self = r;
    }
}


/// The registry: the non-plugin panes of the latest snapshot, with an index
/// from pane id to the position of the last pane carrying that id.
pub struct State {
    panes: Vec<PaneInfo>,
    pane_by_id: HashMap<u32, usize>,
}

impl View for State {
    type V = Seq<PaneInfo>;

    closed spec fn view(&self) -> Seq<PaneInfo> {
        self.panes@
    }
}

impl State {
    #[verifier::type_invariant]
    closed spec fn index_consistent(&self) -> bool {
        &&& forall|id: u32| #[trigger]
            self.pane_by_id@.contains_key(id) ==> is_last_with_id(
                self.panes@,
                id,
                self.pane_by_id@[id] as int,
            )
        &&& forall|j: int|
            0 <= j < self.panes@.len() ==> self.pane_by_id@.contains_key(
                (#[trigger] self.panes@[j]).id,
            )
    }

    /// An empty registry.
    pub fn new() -> (r: State)
        ensures
            r@.len() == 0,
    {
        State { panes: Vec::new(), pane_by_id: HashMap::new() }
    }

    /// Replaces the whole registry with the non-plugin panes of `manifest`,
    /// tab after tab in ascending tab order, each tab in delivery order.
    /// Nothing of the previous contents survives.
    pub fn update_panes(&mut self, manifest: PaneManifest)
        ensures
            final(self)@ == snapshot_panes(manifest@),
            tabs_ascending(manifest@),
    {
        proof {
            use_type_invariant(&manifest);
        }
        let mut panes: Vec<PaneInfo> = Vec::new();
        let mut pane_by_id: HashMap<u32, usize> = HashMap::new();
        let n_tabs = manifest.tab_indices.len();
        let mut t: usize = 0;
        while t < n_tabs
            invariant
                n_tabs == manifest.tab_panes@.len(),
                t <= n_tabs,
                manifest@.len() == n_tabs,
                panes@ == snapshot_panes(manifest@.take(t as int)),
                forall|id: u32| #[trigger]
                    pane_by_id@.contains_key(id) ==> is_last_with_id(
                        panes@,
                        id,
                        pane_by_id@[id] as int,
                    ),
                forall|j: int|
                    0 <= j < panes@.len() ==> pane_by_id@.contains_key((#[trigger] panes@[j]).id),
            decreases n_tabs - t,
        {
            let tab = &manifest.tab_panes[t];
            let ghost before = panes@;
            assert(manifest@.take(t as int + 1).drop_last() == manifest@.take(t as int));
            assert(manifest@[t as int].1 == tab@);
            let n = tab.len();
            let mut j: usize = 0;
            while j < n
                invariant
                    n == tab@.len(),
                    j <= n,
                    panes@ == before + terminal_panes(tab@.take(j as int)),
                    forall|id: u32| #[trigger]
                        pane_by_id@.contains_key(id) ==> is_last_with_id(
                            panes@,
                            id,
                            pane_by_id@[id] as int,
                        ),
                    forall|j: int|
                        0 <= j < panes@.len() ==> pane_by_id@.contains_key(
                            (#[trigger] panes@[j]).id,
                        ),
                decreases n - j,
            {
                let pane = &tab[j];
                assert(tab@.take(j as int + 1).drop_last() == tab@.take(j as int));
                if !pane.is_plugin {
                    let idx = panes.len();
                    pane_by_id.insert(pane.id, idx);
                    panes.push(pane.duplicate());
                    assert(panes@ == before + terminal_panes(tab@.take(j as int + 1)));
                }
                j = j + 1;
            }
            assert(tab@.take(n as int) == tab@);
            t = t + 1;
        }
        assert(manifest@.take(n_tabs as int) == manifest@);
        *self = State { panes, pane_by_id };
    }

    /// All tracked panes, in registry order.
    pub fn panes(&self) -> (r: &[PaneInfo])
        ensures
            r@ == self@,
    {
        self.panes.as_slice()
    }

    /// The pane with id `id`; where several carry it, the last of them.
    pub fn get_pane(&self, id: u32) -> (r: Option<&PaneInfo>)
        ensures
            r is None <==> !has_id(self@, id),
            r matches Some(p) ==> exists|k: int| is_last_with_id(self@, id, k) && *p == self@[k],
    {
        proof {
            use_type_invariant(self);
        }
        match self.pane_by_id.get(&id) {
            Some(idx) => Some(&self.panes[*idx]),
            None => {
                assert forall|j: int| 0 <= j < self@.len() implies (#[trigger] self@[j]).id != id by {
                    assert(self.pane_by_id@.contains_key(self.panes@[j].id));
                }
                None
            },
        }
    }

    /// The first pane titled `title`.
    pub fn get_pane_by_title(&self, title: &str) -> (r: Option<&PaneInfo>)
        ensures
            r is None <==> forall|j: int| 0 <= j < self@.len() ==> (#[trigger] self@[j]).title@ != title@,
            r matches Some(p) ==> exists|k: int| is_first_with_title(self@, title@, k) && *p == self@[k],
    {
        let wanted = String::from_str(title);
        let n = self.panes.len();
        let mut i: usize = 0;
        while i < n
            invariant
                n == self@.len(),
                i <= n,
                wanted@ == title@,
                forall|j: int| 0 <= j < i ==> (#[trigger] self@[j]).title@ != title@,
            decreases n - i,
        {
            if self.panes[i].title == wanted {
                assert(is_first_with_title(self@, title@, i as int));
                return Some(&self.panes[i]);
            }
            i = i + 1;
        }
        None
    }

    /// The panes whose title starts with `prefix`, in registry order.
    pub fn get_panes_by_prefix(&self, prefix: &str) -> (r: Vec<&PaneInfo>)
        ensures
            r@.len() == with_prefix(self@, prefix@).len(),
            forall|k: int| 0 <= k < r@.len() ==> *r@[k] == with_prefix(self@, prefix@)[k],
    {
        let mut r: Vec<&PaneInfo> = Vec::new();
        let n = self.panes.len();
        let mut i: usize = 0;
        while i < n
            invariant
                n == self@.len(),
                i <= n,
                r@.len() == with_prefix(self@.take(i as int), prefix@).len(),
                forall|k: int|
                    0 <= k < r@.len() ==> *r@[k] == with_prefix(self@.take(i as int), prefix@)[k],
            decreases n - i,
        {
            assert(self@.take(i as int + 1).drop_last() == self@.take(i as int));
            if title_starts_with(self.panes[i].title.as_str(), prefix) {
                r.push(&self.panes[i]);
            }
            i = i + 1;
        }
        assert(self@.take(n as int) == self@);
        r
    }
}

impl Default for State {
    fn default() -> (r: State)
        ensures
            r@.len() == 0,
    {
        State::new()
    }
}

/// Relies on str::starts_with: whether `prefix` is a prefix of `s`.
#[verifier::external_body]
fn title_starts_with(s: &str, prefix: &str) -> (r: bool)
    ensures
        r == prefix@.is_prefix_of(s@),
{
    s.starts_with(prefix)
}

/// An entry belongs to the panes of a snapshot exactly when it stands in one of
/// its tabs and is not plugin-hosted; the snapshot's tabs come in ascending
/// index order.
pub proof fn lemma_snapshot_holds_terminal_entries(tabs: Seq<(usize, Seq<PaneInfo>)>, p: PaneInfo)
    ensures
        snapshot_panes(tabs).contains(p) <==> (!p.is_plugin && exists|t: int|
            0 <= t < tabs.len() && (#[trigger] tabs[t]).1.contains(p)),
    decreases tabs.len(),
{
    if tabs.len() > 0 {
        let init = tabs.drop_last();
        lemma_snapshot_holds_terminal_entries(init, p);
        lemma_terminal_holds_non_plugin(tabs.last().1, p);
        assert(snapshot_panes(tabs) == snapshot_panes(init) + terminal_panes(tabs.last().1));
        if snapshot_panes(tabs).contains(p) {
            let k = choose|k: int| 0 <= k < snapshot_panes(tabs).len() && snapshot_panes(tabs)[k] == p;
            if k < snapshot_panes(init).len() {
                assert(snapshot_panes(init)[k] == p);
            } else {
                assert(terminal_panes(tabs.last().1)[k - snapshot_panes(init).len()] == p);
                assert(tabs[tabs.len() - 1].1.contains(p));
            }
        }
        if !p.is_plugin && exists|t: int| 0 <= t < tabs.len() && (#[trigger] tabs[t]).1.contains(p) {
            let t = choose|t: int| 0 <= t < tabs.len() && (#[trigger] tabs[t]).1.contains(p);
            if t < tabs.len() - 1 {
                assert(init[t] == tabs[t]);
                let k = choose|k: int| 0 <= k < snapshot_panes(init).len() && snapshot_panes(init)[k] == p;
                assert(snapshot_panes(tabs)[k] == p);
            } else {
                let k = choose|k: int| 0 <= k < terminal_panes(tabs.last().1).len() && terminal_panes(tabs.last().1)[k] == p;
                assert(snapshot_panes(tabs)[snapshot_panes(init).len() + k] == p);
            }
        }
    }
}

/// An entry stands among the terminal panes of a tab exactly when it stands in
/// the tab and is not plugin-hosted.
pub proof fn lemma_terminal_holds_non_plugin(s: Seq<PaneInfo>, p: PaneInfo)
    ensures
        terminal_panes(s).contains(p) <==> (!p.is_plugin && s.contains(p)),
    decreases s.len(),
{
    if s.len() > 0 {
        let init = s.drop_last();
        lemma_terminal_holds_non_plugin(init, p);
        if terminal_panes(s).contains(p) {
            let k = choose|k: int| 0 <= k < terminal_panes(s).len() && terminal_panes(s)[k] == p;
            if k < terminal_panes(init).len() {
                assert(terminal_panes(init)[k] == p);
                let m = choose|m: int| 0 <= m < init.len() && init[m] == p;
                assert(s[m] == p);
            } else {
                assert(s[s.len() - 1] == p);
            }
        }
        if !p.is_plugin && s.contains(p) {
            let m = choose|m: int| 0 <= m < s.len() && s[m] == p;
            if m < s.len() - 1 {
                assert(init[m] == p);
                let k = choose|k: int| 0 <= k < terminal_panes(init).len() && terminal_panes(init)[k] == p;
                assert(terminal_panes(s)[k] == p);
            } else {
                assert(terminal_panes(s)[terminal_panes(init).len() as int] == p);
            }
        }
    }
}

/// After a snapshot replaces the registry, a pane id is found exactly when some
/// non-plugin entry of the snapshot carries it.
pub proof fn lemma_lookup_after_snapshot(tabs: Seq<(usize, Seq<PaneInfo>)>, id: u32)
    ensures
        has_id(snapshot_panes(tabs), id) <==> exists|t: int, j: int|
            0 <= t < tabs.len() && 0 <= j < tabs[t].1.len() && (#[trigger] tabs[t].1[j]).id == id
                && !tabs[t].1[j].is_plugin,
{
    let s = snapshot_panes(tabs);
    if has_id(s, id) {
        let k = choose|k: int| 0 <= k < s.len() && (#[trigger] s[k]).id == id;
        assert(s.contains(s[k]));
        lemma_snapshot_holds_terminal_entries(tabs, s[k]);
        let t = choose|t: int| 0 <= t < tabs.len() && (#[trigger] tabs[t]).1.contains(s[k]);
        let j = choose|j: int| 0 <= j < tabs[t].1.len() && tabs[t].1[j] == s[k];
        assert(tabs[t].1[j].id == id);
    }
    if exists|t: int, j: int|
        0 <= t < tabs.len() && 0 <= j < tabs[t].1.len() && (#[trigger] tabs[t].1[j]).id == id
            && !tabs[t].1[j].is_plugin {
        let (t, j) = choose|t: int, j: int|
            0 <= t < tabs.len() && 0 <= j < tabs[t].1.len() && (#[trigger] tabs[t].1[j]).id == id
                && !tabs[t].1[j].is_plugin;
        let p = tabs[t].1[j];
        assert(tabs[t].1.contains(p));
        lemma_snapshot_holds_terminal_entries(tabs, p);
        let k = choose|k: int| 0 <= k < s.len() && s[k] == p;
        assert(s[k].id == id);
    }
}

/// A lookup by id finds a position fixed by the listing alone, so two
/// registries that list the same panes answer every lookup alike. As
/// `update_panes` fixes the listing from the snapshot alone, replacing the
/// registry twice with one snapshot leaves what replacing it once leaves.
pub proof fn lemma_lookup_fixed_by_listing(s: Seq<PaneInfo>, id: u32, k1: int, k2: int)
    requires
        is_last_with_id(s, id, k1),
        is_last_with_id(s, id, k2),
    ensures
        k1 == k2,
{
}

} // verus!
