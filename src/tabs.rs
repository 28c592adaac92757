//! Tab selection: an ordered list of tabs, one active, with tabs that can be
//! disabled by their own predicate or by an override.
//!
//! The tabs themselves (what they draw, their hooks) belong to the caller.
//! This manager decides, and reports each change of the active tab as a
//! [`Selection`] so that the caller runs the deactivate hook of the old tab
//! and then the activate hook of the new one.

use vstd::arithmetic::div_mod::{lemma_add_mod_noop_right, lemma_mod_add_multiples_vanish, lemma_small_mod};
use vstd::prelude::*;

verus! {

/// What a selection request did.
#[derive(Debug, Clone, Copy, PartialEq, Eq, Structural)]
pub enum Selection {
    /// Refused: the index is out of range or the tab is not enabled.
    /// Nothing changed.
    Rejected,
    /// The requested tab was already active: no hook runs.
    Kept,
    /// The active tab moved: deactivate `from`, then activate `to`.
    Switched { from: usize, to: usize },
}

impl Selection {
    /// Whether the requested tab is active afterwards.
    pub fn is_selected(&self) -> (r: bool)
        ensures
            r == !(*self == Selection::Rejected),
    {
        !matches!(self, Selection::Rejected)
    }
}

/// How a tab shows in the tab bar.
#[derive(Debug, Clone, Copy, PartialEq, Eq, Structural)]
pub enum Appearance {
    /// Not effectively enabled: grayed out.
    Disabled,
    /// The active tab: highlighted.
    Active,
    /// Any other tab.
    Normal,
}

/// What the manager knows of one tab.
pub struct TabModel {
    pub id: Seq<char>,
    pub title: Seq<char>,
    /// The tab's own enable predicate.
    pub own_enabled: bool,
}

/// The abstract state of a tab manager.
pub struct TabsModel {
    pub tabs: Seq<TabModel>,
    pub active: int,
    /// Ids disabled by an override.
    pub disabled: Set<Seq<char>>,
}

/// `x mod len` for `0 <= x < 2 * len`.
proof fn lemma_wrap(x: int, len: int)
    requires
        0 < len,
        0 <= x < 2 * len,
    ensures
        x % len == if x < len {
            x
        } else {
            x - len
        },
{
    if x < len {
        lemma_small_mod(x as nat, len as nat);
    } else {
        lemma_small_mod((x - len) as nat, len as nat);
        lemma_mod_add_multiples_vanish(x - len, len);
    }
}

impl TabsModel {
    /// How many tabs there are.
    pub open spec fn len(self) -> int {
        self.tabs.len() as int
    }

    /// The active index is a position of `tabs`, and 0 when there are none.
    pub open spec fn wf(self) -> bool {
        if self.len() == 0 {
            self.active == 0
        } else {
            0 <= self.active < self.len()
        }
    }

    /// Effective enablement: the tab's own predicate holds and its id is
    /// not disabled by an override.
    pub open spec fn enabled(self, i: int) -> bool {
        &&& 0 <= i < self.len()
        &&& self.tabs[i].own_enabled
        &&& !self.disabled.contains(self.tabs[i].id)
    }

    /// The same tabs with `active` as the active position.
    pub open spec fn with_active(self, active: int) -> TabsModel {
        TabsModel { tabs: self.tabs, active, disabled: self.disabled }
    }

    /// What `select(i)` does.
    pub open spec fn selection(self, i: int) -> Selection {
        if !self.enabled(i) {
            Selection::Rejected
        } else if i == self.active {
            Selection::Kept
        } else {
            Selection::Switched { from: self.active as usize, to: i as usize }
        }
    }

    /// The state after `select(i)`.
    pub open spec fn select(self, i: int) -> TabsModel {
        match self.selection(i) {
            Selection::Switched { from, to } => self.with_active(i),
            _ => self,
        }
    }

    /// The position `d` steps ahead of the active tab, wrapping.
    pub open spec fn ahead(self, d: int) -> int {
        (self.active + d) % self.len()
    }

    /// The position `d` steps behind the active tab, wrapping.
    pub open spec fn behind(self, d: int) -> int {
        (self.active + self.len() - d) % self.len()
    }

    /// The first enabled tab at a forward distance of `d` or more from the
    /// active one, short of coming back to it.
    pub open spec fn scan_forward(self, d: int) -> Option<int>
        decreases self.len() - d,
    {
        if d <= 0 || d >= self.len() {
            None
        } else if self.enabled(self.ahead(d)) {
            Some(self.ahead(d))
        } else {
            self.scan_forward(d + 1)
        }
    }

    /// The first enabled tab at a backward distance of `d` or more from the
    /// active one, short of coming back to it.
    pub open spec fn scan_backward(self, d: int) -> Option<int>
        decreases self.len() - d,
    {
        if d <= 0 || d >= self.len() {
            None
        } else if self.enabled(self.behind(d)) {
            Some(self.behind(d))
        } else {
            self.scan_backward(d + 1)
        }
    }

    /// Whether some tab has id `id`.
    pub open spec fn has_id(self, id: Seq<char>) -> bool {
        exists|i: int| 0 <= i < self.len() && #[trigger] self.tabs[i].id == id
    }

    /// `i` is the first position of a tab with id `id`.
    pub open spec fn first_with_id(self, id: Seq<char>, i: int) -> bool {
        &&& 0 <= i < self.len()
        &&& self.tabs[i].id == id
        &&& forall|j: int| 0 <= j < i ==> #[trigger] self.tabs[j].id != id
    }

    /// The first position of a tab with id `id`.
    pub open spec fn position_of(self, id: Seq<char>) -> Option<int> {
        if self.has_id(id) {
            Some(choose|i: int| self.first_with_id(id, i))
        } else {
            None
        }
    }

    /// Whether the first tab with id `id` is enabled; `false` when there is none.
    pub open spec fn id_enabled(self, id: Seq<char>) -> bool {
        match self.position_of(id) {
            Some(i) => self.enabled(i),
            None => false,
        }
    }

    /// The override for `id` set (`enabled == false`) or lifted, when some
    /// tab has that id.
    pub open spec fn set_enabled(self, id: Seq<char>, enabled: bool) -> TabsModel {
        if !self.has_id(id) {
            self
        } else {
            TabsModel {
                tabs: self.tabs,
                active: self.active,
                disabled: if enabled {
                    self.disabled.remove(id)
                } else {
                    self.disabled.insert(id)
                },
            }
        }
    }

    /// The tab that `select_next` moves to, if any.
    pub open spec fn next_target(self) -> Option<int> {
        self.scan_forward(1)
    }

    /// The tab that `select_prev` moves to, if any.
    pub open spec fn prev_target(self) -> Option<int> {
        self.scan_backward(1)
    }

    /// What a move to `target` does: a switch to it, or a refusal when
    /// there is none.
    pub open spec fn move_selection(self, target: Option<int>) -> Selection {
        match target {
            Some(j) => Selection::Switched { from: self.active as usize, to: j as usize },
            None => Selection::Rejected,
        }
    }

    /// The state after a move to `target`.
    pub open spec fn move_to(self, target: Option<int>) -> TabsModel {
        match target {
            Some(j) => self.with_active(j),
            None => self,
        }
    }
}

/// Removing the only occurrence of an element removes it from the set.
proof fn lemma_remove_to_set(ids: Seq<Seq<char>>, i: int)
    requires
        ids.no_duplicates(),
        0 <= i < ids.len(),
    ensures
        ids.remove(i).to_set() =~= ids.to_set().remove(ids[i]),
        ids.remove(i).no_duplicates(),
{
    let r = ids.remove(i);
    assert forall|x: Seq<char>| r.to_set().contains(x) <==> ids.to_set().remove(ids[i]).contains(x) by {
        if r.contains(x) {
            let k = choose|k: int| 0 <= k < r.len() && r[k] == x;
            if k < i {
                assert(ids[k] == x);
            } else {
                assert(ids[k + 1] == x);
            }
        }
        if ids.contains(x) && x != ids[i] {
            let k = choose|k: int| 0 <= k < ids.len() && ids[k] == x;
            if k < i {
                assert(r[k] == x);
            } else {
                assert(r[k - 1] == x);
            }
        }
    }
}

/// Appending a new element adds it to the set.
proof fn lemma_push_to_set(ids: Seq<Seq<char>>, x: Seq<char>)
    requires
        ids.no_duplicates(),
        !ids.contains(x),
    ensures
        ids.push(x).to_set() =~= ids.to_set().insert(x),
        ids.push(x).no_duplicates(),
{
    let r = ids.push(x);
    assert forall|y: Seq<char>| r.to_set().contains(y) <==> ids.to_set().insert(x).contains(y) by {
        if r.contains(y) && y != x {
            let k = choose|k: int| 0 <= k < r.len() && r[k] == y;
            assert(ids[k] == y);
        }
        if ids.contains(y) {
            let k = choose|k: int| 0 <= k < ids.len() && ids[k] == y;
            assert(r[k] == y);
        }
        if y == x {
            assert(r[ids.len() as int] == x);
        }
    }
}

/// Two first positions of one id are one position.
proof fn lemma_first_with_id_unique(m: TabsModel, id: Seq<char>, i: int)
    requires
        m.first_with_id(id, i),
    ensures
        m.position_of(id) == Some(i),
{
    assert(m.has_id(id));
    let k = choose|k: int| m.first_with_id(id, k);
    assert(m.first_with_id(id, k));
    if k < i {
        assert(m.tabs[k].id != id);
    } else if k > i {
        assert(m.tabs[i].id != id);
    }
}

/// A forward scan result is an enabled tab other than the active one,
/// and every tab scanned before it is disabled.
proof fn lemma_scan_forward_found(m: TabsModel, d: int)
    requires
        m.wf(),
        1 <= d,
    ensures
        match m.scan_forward(d) {
            Some(j) => m.enabled(j) && j != m.active && exists|k: int|
                d <= k < m.len() && j == m.ahead(k) && forall|e: int|
                    d <= e < k ==> !m.enabled(#[trigger] m.ahead(e)),
            None => forall|e: int| d <= e < m.len() ==> !m.enabled(#[trigger] m.ahead(e)),
        },
    decreases m.len() - d,
{
    if d < m.len() {
        lemma_wrap(m.active + d, m.len());
        lemma_scan_forward_found(m, d + 1);
        if m.enabled(m.ahead(d)) {
            assert(forall|e: int| d <= e < d ==> !m.enabled(#[trigger] m.ahead(e)));
        } else if let Some(j) = m.scan_forward(d + 1) {
            let k = choose|k: int|
                d + 1 <= k < m.len() && j == m.ahead(k) && forall|e: int|
                    d + 1 <= e < k ==> !m.enabled(#[trigger] m.ahead(e));
            assert(forall|e: int| d <= e < k ==> !m.enabled(#[trigger] m.ahead(e)));
        }
    }
}

/// A backward scan result is an enabled tab other than the active one.
proof fn lemma_scan_backward_found(m: TabsModel, d: int)
    requires
        m.wf(),
        1 <= d,
    ensures
        match m.scan_backward(d) {
            Some(j) => m.enabled(j) && j != m.active && exists|k: int|
                d <= k < m.len() && j == m.behind(k) && forall|e: int|
                    d <= e < k ==> !m.enabled(#[trigger] m.behind(e)),
            None => forall|e: int|
                d <= e < m.len() ==> !m.enabled(#[trigger] m.behind(e)),
        },
    decreases m.len() - d,
{
    if d < m.len() {
        lemma_wrap(m.active + m.len() - d, m.len());
        lemma_scan_backward_found(m, d + 1);
        if m.enabled(m.behind(d)) {
            assert(forall|e: int| d <= e < d ==> !m.enabled(#[trigger] m.behind(e)));
        } else if let Some(j) = m.scan_backward(d + 1) {
            let k = choose|k: int|
                d + 1 <= k < m.len() && j == m.behind(k) && forall|e: int|
                    d + 1 <= e < k ==> !m.enabled(#[trigger] m.behind(e));
            assert(forall|e: int| d <= e < k ==> !m.enabled(#[trigger] m.behind(e)));
        }
    }
}

/// A request for a tab out of range, or for one that is not effectively
/// enabled, is refused and changes nothing.
pub proof fn lemma_select_refused(m: TabsModel, i: int)
    requires
        m.wf(),
        !(0 <= i < m.len()) || !m.enabled(i),
    ensures
        m.selection(i) == Selection::Rejected,
        m.select(i) == m,
{
}

/// Selecting the active tab succeeds without a switch, so neither the
/// activate nor the deactivate hook is due.
pub proof fn lemma_select_active_runs_no_hook(m: TabsModel)
    requires
        m.wf(),
        m.enabled(m.active),
    ensures
        m.selection(m.active) == Selection::Kept,
        m.select(m.active) == m,
{
}

/// Every position other than the active one is some number of steps
/// ahead of it, and some number of steps behind it.
proof fn lemma_reach(m: TabsModel, j: int)
    requires
        m.wf(),
        0 <= j < m.len(),
        j != m.active,
    ensures
        exists|k: int| 1 <= k < m.len() && #[trigger] m.ahead(k) == j,
        exists|k: int| 1 <= k < m.len() && #[trigger] m.behind(k) == j,
{
    let n = m.len();
    let a = m.active;
    if j > a {
        lemma_wrap(a + (j - a), n);
        assert(m.ahead(j - a) == j);
        lemma_wrap(a + n - (n - (j - a)), n);
        assert(m.behind(n - (j - a)) == j);
    } else {
        lemma_wrap(a + (j - a + n), n);
        assert(m.ahead(j - a + n) == j);
        lemma_wrap(a + n - (a - j), n);
        assert(m.behind(a - j) == j);
    }
}

/// Moving to the next or previous tab lands on an enabled tab, the
/// nearest one in that direction: every tab passed over is disabled. A
/// move is refused, changing nothing, exactly when no tab other than the
/// active one is enabled; in particular when no tab is enabled at all.
pub proof fn lemma_moves_skip_disabled(m: TabsModel)
    requires
        m.wf(),
    ensures
        match m.next_target() {
            Some(j) => m.enabled(j) && j != m.active && exists|k: int|
                1 <= k < m.len() && j == m.ahead(k) && forall|e: int|
                    1 <= e < k ==> !m.enabled(#[trigger] m.ahead(e)),
            None => {
                &&& forall|e: int| 1 <= e < m.len() ==> !m.enabled(#[trigger] m.ahead(e))
                &&& m.move_selection(None) == Selection::Rejected
                &&& m.move_to(None) == m
            },
        },
        match m.prev_target() {
            Some(j) => m.enabled(j) && j != m.active && exists|k: int|
                1 <= k < m.len() && j == m.behind(k) && forall|e: int|
                    1 <= e < k ==> !m.enabled(#[trigger] m.behind(e)),
            None => {
                &&& forall|e: int| 1 <= e < m.len() ==> !m.enabled(#[trigger] m.behind(e))
                &&& m.move_selection(None) == Selection::Rejected
                &&& m.move_to(None) == m
            },
        },
        (exists|j: int| 0 <= j < m.len() && j != m.active && #[trigger] m.enabled(j))
            <==> m.next_target() is Some,
        (exists|j: int| 0 <= j < m.len() && j != m.active && #[trigger] m.enabled(j))
            <==> m.prev_target() is Some,
        (forall|i: int| 0 <= i < m.len() ==> !#[trigger] m.enabled(i)) ==> m.next_target() is None
            && m.prev_target() is None,
{
    lemma_scan_forward_found(m, 1);
    lemma_scan_backward_found(m, 1);
    if exists|j: int| 0 <= j < m.len() && j != m.active && #[trigger] m.enabled(j) {
        let j = choose|j: int| 0 <= j < m.len() && j != m.active && #[trigger] m.enabled(j);
        lemma_reach(m, j);
        let kf = choose|k: int| 1 <= k < m.len() && #[trigger] m.ahead(k) == j;
        let kb = choose|k: int| 1 <= k < m.len() && #[trigger] m.behind(k) == j;
        assert(m.enabled(m.ahead(kf)));
        assert(m.enabled(m.behind(kb)));
    }
}

/// A well-formed manager has a well-formed model: the active index is a
/// position of the tabs, or 0 when there are none.
pub proof fn lemma_manager_wf(tm: &TabManager)
    requires
        tm.wf(),
    ensures
        tm@.wf(),
{
}

/// One tab as the manager holds it.
struct TabEntry {
    id: String,
    title: String,
    own_enabled: bool,
}

/// A description of one tab, for listing.
#[derive(Debug, Clone)]
pub struct TabInfo {
    /// The tab's id.
    pub id: String,
    /// The tab's title.
    pub title: String,
    /// Whether the tab is effectively enabled.
    pub enabled: bool,
    /// The tab's position.
    pub index: usize,
}

/// The manager of the tab list, the active tab and the disable overrides.
pub struct TabManager {
    tabs: Vec<TabEntry>,
    active_index: usize,
    disabled_overrides: Vec<String>,
}

spec fn tab_model(t: TabEntry) -> TabModel {
    TabModel { id: t.id@, title: t.title@, own_enabled: t.own_enabled }
}

impl View for TabManager {
    type V = TabsModel;

    closed spec fn view(&self) -> TabsModel {
        TabsModel {
            tabs: self.tabs@.map_values(|t: TabEntry| tab_model(t)),
            active: self.active_index as int,
            disabled: self.override_ids().to_set(),
        }
    }
}

impl TabManager {
    closed spec fn override_ids(&self) -> Seq<Seq<char>> {
        self.disabled_overrides@.map_values(|s: String| s@)
    }

    /// The state is well formed and no override is listed twice.
    pub closed spec fn wf(&self) -> bool {
        self@.wf() && self.override_ids().no_duplicates()
    }

    /// A manager without tabs.
    pub fn new() -> (r: TabManager)
        ensures
            r.wf(),
            r@.tabs.len() == 0,
            r@.active == 0,
            r@.disabled.is_empty(),
    {
        let r = TabManager { tabs: Vec::new(), active_index: 0, disabled_overrides: Vec::new() };
        proof {
            assert(r.override_ids().to_set() =~= Set::empty());
        }
        r
    }

    /// Appends a tab with the given id, title and own enable predicate.
    pub fn add(&mut self, id: &str, title: &str, own_enabled: bool)
        requires
            old(self).wf(),
        ensures
            final(self).wf(),
            final(self)@ == (TabsModel {
                tabs: old(self)@.tabs.push(TabModel { id: id@, title: title@, own_enabled }),
                ..old(self)@
            }),
    {
        let entry = TabEntry { id: id.to_owned(), title: title.to_owned(), own_enabled };
        self.tabs.push(entry);
        proof {
            assert(self@.tabs =~= old(self)@.tabs.push(
                TabModel { id: id@, title: title@, own_enabled },
            ));
        }
    }

    /// How many tabs there are.
    pub fn len(&self) -> (r: usize)
        ensures
            r == self@.len(),
    {
        self.tabs.len()
    }

    /// Whether there are no tabs.
    pub fn is_empty(&self) -> (r: bool)
        ensures
            r == (self@.len() == 0),
    {
        self.tabs.len() == 0
    }

    /// The position of the active tab.
    pub fn active_index(&self) -> (r: usize)
        ensures
            r == self@.active,
    {
        self.active_index
    }

    /// The id of the active tab; `None` when there are no tabs.
    pub fn active_id(&self) -> (r: Option<&str>)
        requires
            self.wf(),
        ensures
            match r {
                Some(s) => self@.len() > 0 && s@ == self@.tabs[self@.active].id,
                None => self@.len() == 0,
            },
    {
        if self.active_index < self.tabs.len() {
            Some(self.tabs[self.active_index].id.as_str())
        } else {
            None
        }
    }

    /// Where `id` stands among the overrides.
    fn override_position(&self, id: &String) -> (r: Option<usize>)
        ensures
            match r {
                Some(i) => i < self.override_ids().len() && self.override_ids()[i as int] == id@,
                None => !self.override_ids().contains(id@),
            },
    {
        let mut i: usize = 0;
        while i < self.disabled_overrides.len()
            invariant
                i <= self.disabled_overrides.len(),
                self.override_ids().len() == self.disabled_overrides.len(),
                forall|j: int| 0 <= j < i ==> self.override_ids()[j] != id@,
            decreases self.disabled_overrides.len() - i,
        {
            assert(self.override_ids()[i as int] == self.disabled_overrides@[i as int]@);
            if self.disabled_overrides[i] == *id {
                return Some(i);
            }
            i += 1;
        }
        None
    }

    /// Whether `id` is disabled by an override.
    fn is_overridden(&self, id: &String) -> (r: bool)
        ensures
            r == self@.disabled.contains(id@),
    {
        let found = self.override_position(id);
        proof {
            if let Some(i) = found {
                assert(self.override_ids().contains(id@));
            }
        }
        found.is_some()
    }

    /// Whether the tab at `index` is effectively enabled.
    fn is_tab_enabled(&self, index: usize) -> (r: bool)
        requires
            self.wf(),
        ensures
            r == self@.enabled(index as int),
    {
        if index < self.tabs.len() {
            assert(self@.tabs[index as int] == tab_model(self.tabs@[index as int]));
            self.tabs[index].own_enabled && !self.is_overridden(&self.tabs[index].id)
        } else {
            false
        }
    }

    /// The first position of a tab with id `id`.
    fn position(&self, id: &str) -> (r: Option<usize>)
        requires
            self.wf(),
        ensures
            r == match self@.position_of(id@) {
                Some(i) => Some(i as usize),
                None => None::<usize>,
            },
            r is Some ==> self@.first_with_id(id@, r->0 as int),
    {
        let target = id.to_owned();
        let mut i: usize = 0;
        while i < self.tabs.len()
            invariant
                target@ == id@,
                i <= self.tabs.len(),
                self@.len() == self.tabs.len(),
                forall|j: int| 0 <= j < i ==> #[trigger] self@.tabs[j].id != id@,
            decreases self.tabs.len() - i,
        {
            assert(self@.tabs[i as int] == tab_model(self.tabs@[i as int]));
            if self.tabs[i].id == target {
                proof {
                    lemma_first_with_id_unique(self@, id@, i as int);
                }
                return Some(i);
            }
            i += 1;
        }
        None
    }

    /// Whether the first tab with id `id` is effectively enabled; `false`
    /// when there is none.
    pub fn is_enabled(&self, id: &str) -> (r: bool)
        requires
            self.wf(),
        ensures
            r == self@.id_enabled(id@),
    {
        match self.position(id) {
            Some(index) => self.is_tab_enabled(index),
            None => false,
        }
    }

    /// Disables the tabs with id `id` by an override (`enabled == false`),
    /// or lifts that override so that their own predicate decides again.
    /// `false`, with nothing changed, when no tab has that id.
    pub fn set_enabled(&mut self, id: &str, enabled: bool) -> (r: bool)
        requires
            old(self).wf(),
        ensures
            final(self).wf(),
            r == old(self)@.has_id(id@),
            final(self)@ == old(self)@.set_enabled(id@, enabled),
    {
        if self.position(id).is_none() {
            return false;
        }
        let target = id.to_owned();
        let ghost ids = self.override_ids();
        let found = self.override_position(&target);
        if let Some(i) = found {
            if enabled {
                self.disabled_overrides.remove(i);
                proof {
                    assert(self.override_ids() =~= ids.remove(i as int));
                    lemma_remove_to_set(ids, i as int);
                }
            }
            proof {
                assert(ids.contains(id@));
                assert(ids.to_set().insert(id@) =~= ids.to_set());
            }
        } else {
            if !enabled {
                self.disabled_overrides.push(target);
                proof {
                    assert(self.override_ids() =~= ids.push(id@));
                    lemma_push_to_set(ids, id@);
                }
            }
            proof {
                assert(ids.to_set().remove(id@) =~= ids.to_set());
            }
        }
        true
    }

    /// Records the own enable predicate of the tab at `index`, as the tab
    /// reports it now. `false`, with nothing changed, when `index` is out of
    /// range.
    pub fn set_own_enabled(&mut self, index: usize, own_enabled: bool) -> (r: bool)
        requires
            old(self).wf(),
        ensures
            final(self).wf(),
            r == (index < old(self)@.len()),
            final(self)@ == if r {
                TabsModel {
                    tabs: old(self)@.tabs.update(
                        index as int,
                        TabModel { own_enabled, ..old(self)@.tabs[index as int] },
                    ),
                    ..old(self)@
                }
            } else {
                old(self)@
            },
    {
        if index >= self.tabs.len() {
            return false;
        }
        self.tabs[index].own_enabled = own_enabled;
        proof {
            assert(self@.tabs =~= old(self)@.tabs.update(
                index as int,
                TabModel { own_enabled, ..old(self)@.tabs[index as int] },
            ));
        }
        true
    }

    /// A description of every tab, in order.
    pub fn list(&self) -> (r: Vec<TabInfo>)
        requires
            self.wf(),
        ensures
            r@.len() == self@.len(),
            forall|i: int|
                0 <= i < r@.len() ==> {
                    &&& (#[trigger] r@[i]).id@ == self@.tabs[i].id
                    &&& r@[i].title@ == self@.tabs[i].title
                    &&& r@[i].enabled == self@.enabled(i)
                    &&& r@[i].index == i
                },
    {
        let mut r: Vec<TabInfo> = Vec::new();
        let mut i: usize = 0;
        while i < self.tabs.len()
            invariant
                self.wf(),
                i <= self.tabs.len(),
                self@.len() == self.tabs.len(),
                r@.len() == i,
                forall|k: int|
                    0 <= k < i ==> {
                        &&& (#[trigger] r@[k]).id@ == self@.tabs[k].id
                        &&& r@[k].title@ == self@.tabs[k].title
                        &&& r@[k].enabled == self@.enabled(k)
                        &&& r@[k].index == k
                    },
            decreases self.tabs.len() - i,
        {
            assert(self@.tabs[i as int] == tab_model(self.tabs@[i as int]));
            let info = TabInfo {
                id: self.tabs[i].id.clone(),
                title: self.tabs[i].title.clone(),
                enabled: self.is_tab_enabled(i),
                index: i,
            };
            r.push(info);
            i += 1;
        }
        r
    }

    /// How the tab at `index` shows: grayed out when not effectively
    /// enabled, else highlighted when active.
    pub fn appearance(&self, index: usize) -> (r: Appearance)
        requires
            self.wf(),
        ensures
            r == if !self@.enabled(index as int) {
                Appearance::Disabled
            } else if index == self@.active {
                Appearance::Active
            } else {
                Appearance::Normal
            },
    {
        if !self.is_tab_enabled(index) {
            Appearance::Disabled
        } else if index == self.active_index {
            Appearance::Active
        } else {
            Appearance::Normal
        }
    }

    /// Makes the tab at `index` active. Refused, with nothing changed, when
    /// `index` is out of range or the tab is not effectively enabled; when
    /// it is already active nothing changes and no hook is due.
    pub fn select(&mut self, index: usize) -> (r: Selection)
        requires
            old(self).wf(),
        ensures
            final(self).wf(),
            r == old(self)@.selection(index as int),
            final(self)@ == old(self)@.select(index as int),
    {
        if index >= self.tabs.len() {
            return Selection::Rejected;
        }
        if !self.is_tab_enabled(index) {
            return Selection::Rejected;
        }
        if index == self.active_index {
            return Selection::Kept;
        }
        let from = self.active_index;
        self.active_index = index;
        Selection::Switched { from, to: index }
    }

    /// Selects the first tab with id `id`; refused when there is none.
    pub fn select_by_id(&mut self, id: &str) -> (r: Selection)
        requires
            old(self).wf(),
        ensures
            final(self).wf(),
            match old(self)@.position_of(id@) {
                Some(i) => r == old(self)@.selection(i) && final(self)@ == old(self)@.select(i),
                None => r == Selection::Rejected && final(self)@ == old(self)@,
            },
    {
        match self.position(id) {
            Some(index) => self.select(index),
            None => Selection::Rejected,
        }
    }

    /// Moves to the next effectively enabled tab after the active one,
    /// wrapping and skipping disabled tabs. Refused, with nothing changed,
    /// when no tab other than the active one is enabled.
    pub fn select_next(&mut self) -> (r: Selection)
        requires
            old(self).wf(),
        ensures
            final(self).wf(),
            r == old(self)@.move_selection(old(self)@.next_target()),
            final(self)@ == old(self)@.move_to(old(self)@.next_target()),
    {
        let len = self.tabs.len();
        if len == 0 {
            return Selection::Rejected;
        }
        let start = self.active_index;
        proof {
            lemma_wrap(start + 1, len as int);
        }
        let mut index = (start + 1) % len;
        let ghost mut d: int = 1;
        while index != start
            invariant
                self.wf(),
                self@ == old(self)@,
                len == self@.len(),
                start == self@.active,
                0 <= start < len,
                1 <= d <= len,
                index == self@.ahead(d),
                index < len,
                self@.next_target() == self@.scan_forward(d),
            decreases len - d,
        {
            proof {
                lemma_wrap(start + d, len as int);
            }
            if self.is_tab_enabled(index) {
                return self.select(index);
            }
            proof {
                lemma_add_mod_noop_right(1, start + d, len as int);
                lemma_wrap(start + d + 1, len as int);
                d = d + 1;
            }
            index = (index + 1) % len;
        }
        proof {
            lemma_wrap(start + d, len as int);
        }
        Selection::Rejected
    }

    /// Moves to the nearest effectively enabled tab before the active one,
    /// wrapping and skipping disabled tabs. Refused, with nothing changed,
    /// when no tab other than the active one is enabled.
    pub fn select_prev(&mut self) -> (r: Selection)
        requires
            old(self).wf(),
        ensures
            final(self).wf(),
            r == old(self)@.move_selection(old(self)@.prev_target()),
            final(self)@ == old(self)@.move_to(old(self)@.prev_target()),
    {
        let len = self.tabs.len();
        if len == 0 {
            return Selection::Rejected;
        }
        let start = self.active_index;
        proof {
            lemma_wrap(start + len - 1, len as int);
        }
        let mut index = if start == 0 {
            len - 1
        } else {
            start - 1
        };
        let ghost mut d: int = 1;
        while index != start
            invariant
                self.wf(),
                self@ == old(self)@,
                len == self@.len(),
                start == self@.active,
                0 <= start < len,
                1 <= d <= len,
                index == self@.behind(d),
                index < len,
                self@.prev_target() == self@.scan_backward(d),
            decreases len - d,
        {
            proof {
                lemma_wrap(start + len - d, len as int);
            }
            if self.is_tab_enabled(index) {
                return self.select(index);
            }
            proof {
                lemma_wrap(start + len - d - 1, len as int);
                d = d + 1;
            }
            index = if index == 0 {
                len - 1
            } else {
                index - 1
            };
        }
        proof {
            lemma_wrap(start + len - d, len as int);
        }
        Selection::Rejected
    }
}

impl Default for TabManager {
    fn default() -> (r: TabManager)
        ensures
            r.wf(),
            r@.tabs.len() == 0,
            r@.active == 0,
            r@.disabled.is_empty(),
    {
        TabManager::new()
    }
}

} // verus!
