//! Views of the focus manager handed to event handlers and to drawing.

use vstd::prelude::*;

use crate::focus::FocusManager;

verus! {

/// Focus controls available while an event is handled.
pub struct FocusEventContext<'a> {
    /// The focus manager behind these controls.
    pub manager: &'a mut FocusManager,
}

impl<'a> FocusEventContext<'a> {
    /// Focus controls over `manager`.
    pub fn new(manager: &'a mut FocusManager) -> (r: FocusEventContext<'a>)
        ensures
            *r.manager() == *old(manager),
            *final(manager) == *final(r.manager),
    {
        FocusEventContext { manager }
    }

    /// The focus manager behind these controls.
    pub open spec fn manager(&self) -> &FocusManager {
        &*self.manager
    }

    /// The id of the focused element.
    pub fn focused_id(&self) -> (r: Option<&str>)
        requires
            self.manager().wf(),
        ensures
            match r {
                Some(s) => self.manager()@.focused() == Some(s@),
                None => self.manager()@.focused() is None,
            },
    {
        self.manager.focused_id()
    }

    /// Whether `id` has focus.
    pub fn is_focused(&self, id: &str) -> (r: bool)
        requires
            self.manager().wf(),
        ensures
            r == (self.manager()@.focused() == Some(id@)),
    {
        self.manager.is_focused(id)
    }

    /// Focuses `id`; `false`, with nothing changed, if it is not registered.
    pub fn set_focus(&mut self, id: &str) -> (r: bool)
        requires
            old(self).manager().wf(),
        ensures
            final(self).manager().wf(),
            r == old(self).manager()@.ids.contains(id@),
            final(self).manager()@ == old(self).manager()@.set_focus(id@),
    {
        self.manager.set_focus(id)
    }

    /// Nothing is focused afterwards.
    pub fn clear_focus(&mut self)
        requires
            old(self).manager().wf(),
        ensures
            final(self).manager().wf(),
            final(self).manager()@ == old(self).manager()@.with_focus(None),
    {
        self.manager.clear_focus();
    }

    /// Moves focus one step forward, wrapping; `false` when nothing is
    /// registered.
    pub fn focus_next(&mut self) -> (r: bool)
        requires
            old(self).manager().wf(),
        ensures
            final(self).manager().wf(),
            r == (old(self).manager()@.ids.len() > 0),
            final(self).manager()@ == old(self).manager()@.next(),
    {
        self.manager.focus_next()
    }

    /// Moves focus one step back, wrapping; `false` when nothing is
    /// registered.
    pub fn focus_prev(&mut self) -> (r: bool)
        requires
            old(self).manager().wf(),
        ensures
            final(self).manager().wf(),
            r == (old(self).manager()@.ids.len() > 0),
            final(self).manager()@ == old(self).manager()@.prev(),
    {
        self.manager.focus_prev()
    }

    /// Appends `id` to the focus order unless it is already there.
    pub fn register(&mut self, id: &str)
        requires
            old(self).manager().wf(),
        ensures
            final(self).manager().wf(),
            final(self).manager()@ == old(self).manager()@.register(id@),
    {
        self.manager.register(id);
    }

    /// Removes `id` from the focus order.
    pub fn unregister(&mut self, id: &str)
        requires
            old(self).manager().wf(),
        ensures
            final(self).manager().wf(),
            final(self).manager()@ == old(self).manager()@.unregister(id@),
    {
        self.manager.unregister(id);
    }
}

/// Focus state available while drawing.
pub struct FocusDrawContext<'a> {
    /// The focus manager being drawn.
    pub manager: &'a FocusManager,
}

impl<'a> FocusDrawContext<'a> {
    /// A read-only view of `manager`.
    pub fn new(manager: &'a FocusManager) -> (r: FocusDrawContext<'a>)
        ensures
            r.manager == manager,
    {
        FocusDrawContext { manager }
    }

    /// The id of the focused element.
    pub fn focused_id(&self) -> (r: Option<&str>)
        requires
            self.manager.wf(),
        ensures
            match r {
                Some(s) => self.manager@.focused() == Some(s@),
                None => self.manager@.focused() is None,
            },
    {
        self.manager.focused_id()
    }

    /// Whether `id` has focus, for highlighting.
    pub fn is_focused(&self, id: &str) -> (r: bool)
        requires
            self.manager.wf(),
        ensures
            r == (self.manager@.focused() == Some(id@)),
    {
        self.manager.is_focused(id)
    }

    /// Whether `id` is in the focus chain; with a flat focus order that is
    /// whether it has focus.
    pub fn is_in_focus_chain(&self, id: &str) -> (r: bool)
        requires
            self.manager.wf(),
        ensures
            r == (self.manager@.focused() == Some(id@)),
    {
        self.manager.is_in_focus_chain(id)
    }
}

} // verus!
