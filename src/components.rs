use vstd::prelude::*;

use crate::action::Action;
use crate::base::{dispatched, follow_up, translates_event, translates_key, Base, BaseState};
use crate::event::{Event, KeyEvent, MouseEvent};

verus! {

/// The action that a raw event becomes when no component-specific key or
/// mouse handling applies: ticks, render ticks, quits and resizes map to
/// their orchestration actions, anything else to `Noop`.
pub open spec fn generic_action(event: Option<Event>) -> Action {
    match event {
        Some(Event::Quit) => Action::Quit,
        Some(Event::AppTick) => Action::Tick,
        Some(Event::RenderTick) => Action::RenderTick,
        Some(Event::Resize(x, y)) => Action::Resize(x, y),
        _ => Action::Noop,
    }
}

/// A node of the UI state tree. Drawing is done by the host, which reads the
/// node's state.
pub trait Component {
    /// Records whether an outbound message sink is attached.
    fn init(&mut self, notifying: bool) {
    }

    /// Translates a raw event into an action, handing key and mouse events
    /// to the matching translators.
    fn handle_events(&mut self, event: Option<Event>) -> (r: Action)
        ensures
            !(event matches Some(Event::Key(_))) && !(event matches Some(Event::Mouse(_)))
                ==> r == generic_action(event),
    {
        match event {
            Some(Event::Quit) => Action::Quit,
            Some(Event::AppTick) => Action::Tick,
            Some(Event::RenderTick) => Action::RenderTick,
            Some(Event::Key(key_event)) => self.handle_key_events(key_event),
            Some(Event::Mouse(mouse_event)) => self.handle_mouse_events(mouse_event),
            Some(Event::Resize(x, y)) => Action::Resize(x, y),
            _ => Action::Noop,
        }
    }

    fn handle_key_events(&mut self, key: KeyEvent) -> Action {
        Action::Noop
    }

    fn handle_mouse_events(&mut self, mouse: MouseEvent) -> Action {
        Action::Noop
    }

    /// Performs the state change for an action; returns a follow-up action
    /// to re-enqueue, if any.
    fn dispatch(&mut self, action: Action) -> Option<Action> {
        None
    }
}

/// A side panel with no state of its own.
pub struct Other {}

impl Other {
    pub fn new() -> (r: Other) {
        Other {}
    }
}

impl Component for Other {
    fn handle_key_events(&mut self, key: KeyEvent) -> (r: Action)
        ensures
            r == Action::Noop,
            *final(self) == *old(self),
    {
        Action::Noop
    }

    fn handle_mouse_events(&mut self, mouse: MouseEvent) -> (r: Action)
        ensures
            r == Action::Noop,
            *final(self) == *old(self),
    {
        Action::Noop
    }

    fn dispatch(&mut self, action: Action) -> (r: Option<Action>)
        ensures
            r.is_none(),
            *final(self) == *old(self),
    {
        None
    }
}

impl Component for Base {
    fn init(&mut self, notifying: bool)
        ensures
            final(self)@ == (BaseState { notifying, ..old(self)@ }),
    {
        self.attach(notifying);
    }

    fn handle_events(&mut self, event: Option<Event>) -> (r: Action)
        ensures
            translates_event(old(self)@, event, final(self)@, r),
    {
        self.translate_event(event)
    }

    fn handle_key_events(&mut self, key: KeyEvent) -> (r: Action)
        ensures
            translates_key(old(self)@, key, final(self)@, r),
    {
        self.translate_key(key)
    }

    fn handle_mouse_events(&mut self, mouse: MouseEvent) -> (r: Action)
        ensures
            r == Action::Noop,
            final(self)@ == old(self)@,
    {
        Action::Noop
    }

    fn dispatch(&mut self, action: Action) -> (r: Option<Action>)
        ensures
            final(self)@ == dispatched(old(self)@, action),
            r == follow_up(action),
    {
        self.apply(action)
    }
}

} // verus!
