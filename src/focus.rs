//! Focus order and event propagation results.

use vstd::arithmetic::div_mod::lemma_add_mod_noop_right;
use vstd::prelude::*;

verus! {

/// What a handler did with an event, which decides whether it travels on.
#[derive(Debug, Clone, Copy, PartialEq, Eq, Structural)]
pub enum EventResult {
    /// Not handled: the event travels on to the next handler.
    Unhandled,
    /// Handled: the event stops here.
    Handled,
    /// The event stops here without counting as handled.
    StopPropagation,
}

impl EventResult {
    /// Whether the event was handled.
    pub fn is_handled(&self) -> (r: bool)
        ensures
            r == (*self == EventResult::Handled),
    {
        matches!(self, EventResult::Handled)
    }

    /// Whether the event travels on; only `Unhandled` does.
    pub fn should_propagate(&self) -> (r: bool)
        ensures
            r == (*self == EventResult::Unhandled),
    {
        matches!(self, EventResult::Unhandled)
    }
}

impl Default for EventResult {
    fn default() -> (r: EventResult)
        ensures
            r == EventResult::Unhandled,
    {
        EventResult::Unhandled
    }
}

impl From<bool> for EventResult {
    /// `true` is `Handled`, `false` is `Unhandled`.
    fn from(handled: bool) -> (r: EventResult) {
        if handled {
            EventResult::Handled
        } else {
            EventResult::Unhandled
        }
    }
}

impl vstd::std_specs::convert::FromSpecImpl<bool> for EventResult {
    open spec fn obeys_from_spec() -> bool {
        true
    }

    open spec fn from_spec(handled: bool) -> EventResult {
        if handled {
            EventResult::Handled
        } else {
            EventResult::Unhandled
        }
    }
}

impl From<EventResult> for bool {
    /// `Handled` is `true`, the others `false`.
    fn from(result: EventResult) -> (r: bool) {
        result.is_handled()
    }
}

impl vstd::std_specs::convert::FromSpecImpl<EventResult> for bool {
    open spec fn obeys_from_spec() -> bool {
        true
    }

    open spec fn from_spec(result: EventResult) -> bool {
        result == EventResult::Handled
    }
}

/// The abstract state of a focus manager: the ids in focus order and the
/// position of the focused one, if any.
pub struct FocusModel {
    pub ids: Seq<Seq<char>>,
    pub focus: Option<int>,
}

impl FocusModel {
    /// No ids, nothing focused.
    pub open spec fn empty() -> FocusModel {
        FocusModel { ids: Seq::empty(), focus: None }
    }

    /// Ids are unique and the focus, when present, is a position of `ids`.
    pub open spec fn wf(self) -> bool {
        &&& self.ids.no_duplicates()
        &&& match self.focus {
            Some(i) => 0 <= i < self.ids.len(),
            None => true,
        }
    }

    /// The focused id.
    pub open spec fn focused(self) -> Option<Seq<char>> {
        match self.focus {
            Some(i) => Some(self.ids[i]),
            None => None,
        }
    }

    /// The same ids with the focus at `focus`.
    pub open spec fn with_focus(self, focus: Option<int>) -> FocusModel {
        FocusModel { ids: self.ids, focus }
    }

    /// One step forward, wrapping; from no focus, the first id.
    pub open spec fn next(self) -> FocusModel {
        if self.ids.len() == 0 {
            self
        } else {
            self.with_focus(
                Some(
                    match self.focus {
                        Some(i) => (i + 1) % (self.ids.len() as int),
                        None => 0,
                    },
                ),
            )
        }
    }

    /// One step back, wrapping; from no focus, the last id.
    pub open spec fn prev(self) -> FocusModel {
        if self.ids.len() == 0 {
            self
        } else {
            let len = self.ids.len() as int;
            self.with_focus(
                Some(
                    match self.focus {
                        Some(i) => (i + len - 1) % len,
                        None => len - 1,
                    },
                ),
            )
        }
    }

    /// `n` steps forward.
    pub open spec fn next_n(self, n: nat) -> FocusModel
        decreases n,
    {
        if n == 0 {
            self
        } else {
            self.next_n((n - 1) as nat).next()
        }
    }

    /// Focus moves to `id` if it is registered; otherwise nothing changes.
    pub open spec fn set_focus(self, id: Seq<char>) -> FocusModel {
        if self.ids.contains(id) {
            self.with_focus(Some(self.ids.index_of(id)))
        } else {
            self
        }
    }

    /// `id` is appended unless it is already registered.
    pub open spec fn register(self, id: Seq<char>) -> FocusModel {
        if self.ids.contains(id) {
            self
        } else {
            FocusModel { ids: self.ids.push(id), focus: self.focus }
        }
    }

    /// Each id of `ids` registered in turn.
    pub open spec fn register_all(self, ids: Seq<Seq<char>>) -> FocusModel
        decreases ids.len(),
    {
        if ids.len() == 0 {
            self
        } else {
            self.register_all(ids.drop_last()).register(ids.last())
        }
    }

    /// `id` is inserted at `order` when that is a position of `ids`, and
    /// appended otherwise; the focused id stays focused.
    pub open spec fn register_at(self, id: Seq<char>, order: Option<int>) -> FocusModel {
        if self.ids.contains(id) {
            self
        } else {
            match order {
                Some(pos) if 0 <= pos < self.ids.len() => FocusModel {
                    ids: self.ids.insert(pos, id),
                    focus: match self.focus {
                        Some(f) => Some(
                            if f >= pos {
                                f + 1
                            } else {
                                f
                            },
                        ),
                        None => None,
                    },
                },
                _ => FocusModel { ids: self.ids.push(id), focus: self.focus },
            }
        }
    }

    /// `id` is removed. The focused id keeps its focus; when it is `id`
    /// itself, the focus stays at its position, clamped to the shorter
    /// sequence, and is cleared only when no id remains.
    pub open spec fn unregister(self, id: Seq<char>) -> FocusModel {
        if !self.ids.contains(id) {
            self
        } else {
            let k = self.ids.index_of(id);
            let ids = self.ids.remove(k);
            FocusModel {
                ids,
                focus: match self.focus {
                    Some(f) => if f == k {
                        if ids.len() == 0 {
                            None
                        } else if f >= ids.len() {
                            Some(ids.len() - 1)
                        } else {
                            Some(f)
                        }
                    } else if f > k {
                        Some(f - 1)
                    } else {
                        Some(f)
                    },
                    None => None,
                },
            }
        }
    }
}

/// In a sequence without duplicates, an element's position is its index.
pub proof fn lemma_index_of_unique(ids: Seq<Seq<char>>, i: int)
    requires
        ids.no_duplicates(),
        0 <= i < ids.len(),
    ensures
        ids.index_of(ids[i]) == i,
{
    let j = ids.index_of(ids[i]);
    assert(ids.contains(ids[i]));
}

/// Registering distinct ids one after another into an empty model keeps
/// them in that order, with nothing focused.
pub proof fn lemma_register_all_distinct(ids: Seq<Seq<char>>)
    requires
        ids.no_duplicates(),
    ensures
        FocusModel::empty().register_all(ids).ids == ids,
        FocusModel::empty().register_all(ids).focus is None,
    decreases ids.len(),
{
    if ids.len() > 0 {
        let front = ids.drop_last();
        assert(front.no_duplicates());
        lemma_register_all_distinct(front);
        assert(!front.contains(ids.last()));
        assert(front.push(ids.last()) =~= ids);
    }
}

/// Steps taken from no focus: after `n` steps the focus is at `(n - 1) mod len`.
proof fn lemma_steps_from_none(m: FocusModel, n: nat)
    requires
        m.ids.len() > 0,
        m.focus is None,
        n >= 1,
    ensures
        m.next_n(n).ids == m.ids,
        m.next_n(n).focus == Some((n - 1) % (m.ids.len() as int)),
    decreases n,
{
    let len = m.ids.len() as int;
    assert(m.next_n(n) == m.next_n((n - 1) as nat).next());
    if n > 1 {
        lemma_steps_from_none(m, (n - 1) as nat);
        lemma_add_mod_noop_right(1, n - 2, len);
    } else {
        assert(m.next_n(0) == m);
    }
}

/// Steps taken from a focus at `i`: after `n` steps it is at `(i + n) mod len`.
proof fn lemma_steps_from_some(m: FocusModel, i: int, n: nat)
    requires
        m.ids.len() > 0,
        m.focus == Some(i),
    ensures
        m.next_n(n).ids == m.ids,
        m.next_n(n).focus == Some(
            if n == 0 {
                i
            } else {
                (i + n) % (m.ids.len() as int)
            },
        ),
    decreases n,
{
    let len = m.ids.len() as int;
    if n > 0 {
        assert(m.next_n(n) == m.next_n((n - 1) as nat).next());
        lemma_steps_from_some(m, i, (n - 1) as nat);
        lemma_add_mod_noop_right(1, i + n - 1, len);
    }
}

/// Stepping focus forward as many times as there are ids brings a focus
/// back to where it was.
pub proof fn lemma_next_n_returns(m: FocusModel)
    requires
        m.wf(),
        m.ids.len() > 0,
        m.focus is Some,
    ensures
        m.next_n(m.ids.len()) == m,
{
    let i = m.focus->0;
    let len = m.ids.len() as int;
    lemma_steps_from_some(m, i, m.ids.len());
    lemma_add_mod_noop_right(i, len, len);
    assert((i + len) % len == i) by (nonlinear_arith)
        requires
            0 <= i < len,
            (i + (len % len)) % len == (i + len) % len,
    {
    }
}

/// With `n` distinct ids registered into an empty manager and nothing
/// focused, stepping focus forward visits the ids in registration order:
/// step `j + 1` focuses the `j`-th id, and after all `n` have been visited
/// the next step comes back to the first.
pub proof fn lemma_focus_cycle(ids: Seq<Seq<char>>)
    requires
        ids.no_duplicates(),
        ids.len() > 0,
    ensures
        forall|j: int|
            0 <= j < ids.len() ==> #[trigger] FocusModel::empty().register_all(ids).next_n(
                (j + 1) as nat,
            ).focused() == Some(ids[j]),
        FocusModel::empty().register_all(ids).next_n(ids.len() + 1).focused() == Some(ids[0]),
{
    let m = FocusModel::empty().register_all(ids);
    lemma_register_all_distinct(ids);
    assert forall|j: int| 0 <= j < ids.len() implies #[trigger] m.next_n(
        (j + 1) as nat,
    ).focused() == Some(ids[j]) by {
        lemma_steps_from_none(m, (j + 1) as nat);
        vstd::arithmetic::div_mod::lemma_small_mod(j as nat, ids.len());
    }
    lemma_steps_from_none(m, ids.len() + 1);
    vstd::arithmetic::div_mod::lemma_mod_self_0(ids.len() as int);
}

/// Unregistering the focused id while at least one other id remains
/// leaves exactly one id focused.
pub proof fn lemma_unregister_focused_keeps_one(m: FocusModel, id: Seq<char>)
    requires
        m.wf(),
        m.focused() == Some(id),
        m.ids.len() >= 2,
    ensures
        m.unregister(id).wf(),
        !m.unregister(id).ids.contains(id),
        m.unregister(id).focus is Some,
        forall|k: int|
            0 <= k < m.unregister(id).ids.len() ==> (m.unregister(id).focused() == Some(
                #[trigger] m.unregister(id).ids[k],
            ) <==> m.unregister(id).focus == Some(k)),
{
    let i = m.focus->0;
    lemma_index_of_unique(m.ids, i);
    let r = m.unregister(id);
    assert(r.ids =~= m.ids.remove(i));
    assert(r.wf());
}

/// Tracks which focusable element has focus and moves it in a linear,
/// wrapping order.
pub struct FocusManager {
    focus_order: Vec<String>,
    focus_index: Option<usize>,
}

impl View for FocusManager {
    type V = FocusModel;

    closed spec fn view(&self) -> FocusModel {
        FocusModel {
            ids: self.focus_order@.map_values(|s: String| s@),
            focus: match self.focus_index {
                Some(i) => Some(i as int),
                None => None,
            },
        }
    }
}

impl FocusManager {
    /// Ids are unique and the focus is a valid position.
    pub open spec fn wf(&self) -> bool {
        self@.wf()
    }

    /// An empty focus manager.
    pub fn new() -> (r: FocusManager)
        ensures
            r.wf(),
            r@ == FocusModel::empty(),
    {
        let r = FocusManager { focus_order: Vec::new(), focus_index: None };
        proof {
            assert(r@.ids =~= Seq::<Seq<char>>::empty());
        }
        r
    }

    /// The position of `id`, if registered.
    fn position(&self, id: &str) -> (r: Option<usize>)
        requires
            self.wf(),
        ensures
            match r {
                Some(i) => i < self@.ids.len() && self@.ids[i as int] == id@ && self@.ids.index_of(
                    id@,
                ) == i,
                None => !self@.ids.contains(id@),
            },
    {
        let target = id.to_owned();
        let mut i: usize = 0;
        while i < self.focus_order.len()
            invariant
                self.wf(),
                target@ == id@,
                i <= self.focus_order.len(),
                self@.ids.len() == self.focus_order.len(),
                forall|j: int| 0 <= j < i ==> self@.ids[j] != id@,
            decreases self.focus_order.len() - i,
        {
            assert(self@.ids[i as int] == self.focus_order@[i as int]@);
            if self.focus_order[i] == target {
                proof {
                    lemma_index_of_unique(self@.ids, i as int);
                }
                return Some(i);
            }
            i += 1;
        }
        None
    }

    /// The id of the focused element.
    pub fn focused_id(&self) -> (r: Option<&str>)
        requires
            self.wf(),
        ensures
            match r {
                Some(s) => self@.focused() == Some(s@),
                None => self@.focused() is None,
            },
    {
        match self.focus_index {
            Some(i) => Some(self.focus_order[i].as_str()),
            None => None,
        }
    }

    /// Whether `id` has focus.
    pub fn is_focused(&self, id: &str) -> (r: bool)
        requires
            self.wf(),
        ensures
            r == (self@.focused() == Some(id@)),
    {
        match self.focus_index {
            Some(i) => {
                let target = id.to_owned();
                self.focus_order[i] == target
            },
            None => false,
        }
    }

    /// Whether `id` is in the focus chain; with a flat focus order that is
    /// whether it has focus.
    pub fn is_in_focus_chain(&self, id: &str) -> (r: bool)
        requires
            self.wf(),
        ensures
            r == (self@.focused() == Some(id@)),
    {
        self.is_focused(id)
    }

    /// Focuses `id`; `false`, with nothing changed, if it is not registered.
    pub fn set_focus(&mut self, id: &str) -> (r: bool)
        requires
            old(self).wf(),
        ensures
            final(self).wf(),
            r == old(self)@.ids.contains(id@),
            final(self)@ == old(self)@.set_focus(id@),
    {
        match self.position(id) {
            Some(index) => {
                self.focus_index = Some(index);
                true
            },
            None => false,
        }
    }

    /// Nothing is focused afterwards.
    pub fn clear_focus(&mut self)
        requires
            old(self).wf(),
        ensures
            final(self).wf(),
            final(self)@ == old(self)@.with_focus(None),
    {
        self.focus_index = None;
    }

    /// Moves focus one step forward, wrapping; `false` when nothing is
    /// registered.
    pub fn focus_next(&mut self) -> (r: bool)
        requires
            old(self).wf(),
        ensures
            final(self).wf(),
            r == (old(self)@.ids.len() > 0),
            final(self)@ == old(self)@.next(),
    {
        let len = self.focus_order.len();
        if len == 0 {
            return false;
        }
        let new_index = match self.focus_index {
            Some(i) => (i + 1) % len,
            None => 0,
        };
        self.focus_index = Some(new_index);
        true
    }

    /// Moves focus one step back, wrapping; `false` when nothing is
    /// registered.
    pub fn focus_prev(&mut self) -> (r: bool)
        requires
            old(self).wf(),
        ensures
            final(self).wf(),
            r == (old(self)@.ids.len() > 0),
            final(self)@ == old(self)@.prev(),
    {
        let len = self.focus_order.len();
        if len == 0 {
            return false;
        }
        let new_index = match self.focus_index {
            Some(i) => if i == 0 {
                len - 1
            } else {
                i - 1
            },
            None => len - 1,
        };
        proof {
            if let Some(i) = self.focus_index {
                assert(i > 0 ==> (i + len - 1) % (len as int) == i - 1) by (nonlinear_arith)
                    requires i < len;
                assert(i == 0 ==> (i + len - 1) % (len as int) == len - 1) by (nonlinear_arith)
                    requires len > 0;
            }
        }
        self.focus_index = Some(new_index);
        true
    }

    /// Appends `id` to the focus order unless it is already there.
    pub fn register(&mut self, id: &str)
        requires
            old(self).wf(),
        ensures
            final(self).wf(),
            final(self)@ == old(self)@.register(id@),
    {
        if self.position(id).is_none() {
            self.focus_order.push(id.to_owned());
            proof {
                assert(self@.ids =~= old(self)@.ids.push(id@));
            }
        }
    }

    /// Inserts `id` at position `order` (appends it when `order` is `None`
    /// or past the end) unless it is already registered.
    pub fn register_at(&mut self, id: &str, order: Option<usize>)
        requires
            old(self).wf(),
        ensures
            final(self).wf(),
            final(self)@ == old(self)@.register_at(
                id@,
                match order {
                    Some(p) => Some(p as int),
                    None => None,
                },
            ),
    {
        if self.position(id).is_some() {
            return ;
        }
        match order {
            Some(pos) if pos < self.focus_order.len() => {
                self.focus_order.insert(pos, id.to_owned());
                proof {
                    assert(self@.ids =~= old(self)@.ids.insert(pos as int, id@));
                }
                match self.focus_index {
                    Some(f) => {
                        if f >= pos {
                            self.focus_index = Some(f + 1);
                        }
                    },
                    None => {},
                }
            },
            _ => {
                self.focus_order.push(id.to_owned());
                proof {
                    assert(self@.ids =~= old(self)@.ids.push(id@));
                }
            },
        }
    }

    /// Removes `id`. A focus on another id follows that id; a focus on
    /// `id` stays at its position, clamped to the new length, and is
    /// cleared when nothing remains.
    pub fn unregister(&mut self, id: &str)
        requires
            old(self).wf(),
        ensures
            final(self).wf(),
            final(self)@ == old(self)@.unregister(id@),
    {
        if let Some(index) = self.position(id) {
            self.focus_order.remove(index);
            proof {
                assert(self@.ids =~= old(self)@.ids.remove(index as int));
            }
            let len = self.focus_order.len();
            match self.focus_index {
                Some(f) => {
                    if f == index {
                        if len == 0 {
                            self.focus_index = None;
                        } else if f >= len {
                            self.focus_index = Some(len - 1);
                        }
                    } else if f > index {
                        self.focus_index = Some(f - 1);
                    }
                },
                None => {},
            }
        }
    }

    /// The registered ids in focus order.
    pub fn focus_order(&self) -> (r: &[String])
        ensures
            r@.map_values(|s: String| s@) == self@.ids,
    {
        self.focus_order.as_slice()
    }

    /// How many ids are registered.
    pub fn len(&self) -> (r: usize)
        ensures
            r == self@.ids.len(),
    {
        self.focus_order.len()
    }

    /// Whether no id is registered.
    pub fn is_empty(&self) -> (r: bool)
        ensures
            r == (self@.ids.len() == 0),
    {
        self.focus_order.len() == 0
    }
}

impl Default for FocusManager {
    fn default() -> (r: FocusManager)
        ensures
            r.wf(),
            r@ == FocusModel::empty(),
    {
        FocusManager::new()
    }
}

} // verus!
