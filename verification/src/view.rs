use crate::dispatcher::Dispatcher;
use crate::render::{counter_text, render_text};
use crate::store::{apply_action, Action};
use vstd::prelude::*;

verus! {

/// A key observed on the input source, as far as the view tells keys apart:
/// the up and down arrows, a printable character, or anything else.
#[derive(Clone, Copy, Debug, PartialEq, Eq, Structural)]
pub enum Key {
    Up,
    Down,
    Char(char),
    Other,
}

/// Whether the loop is still running or has been asked to stop.
#[derive(Clone, Copy, Debug, PartialEq, Eq, Structural)]
pub enum LoopState {
    Running,
    Terminating,
}

/// The action a key maps to: the up arrow asks for an increment, the down
/// arrow for a decrement, and every other key for nothing.
pub open spec fn key_action(key: Key) -> Option<Action> {
    match key {
        Key::Up => Some(Action::Increment),
        Key::Down => Some(Action::Decrement),
        _ => None,
    }
}

/// The action an input-poll outcome maps to: none when the poll saw no key.
pub open spec fn event_action(event: Option<Key>) -> Option<Action> {
    match event {
        Some(key) => key_action(key),
        None => None,
    }
}

/// Whether a poll outcome is the quit signal: the key `q`, and nothing else.
pub open spec fn is_quit(event: Option<Key>) -> bool {
    event == Some(Key::Char('q'))
}

/// Drives the loop: reads the counter through its dispatcher, renders it,
/// translates observed keys into actions, and decides when to stop.
pub struct CounterView {
    pub dispatcher: Dispatcher,
    pub state: LoopState,
}

impl CounterView {
    /// The counter value the view currently shows.
    pub open spec fn value(&self) -> int {
        self.dispatcher.store.count as int
    }

    /// A fresh view starts running, around the dispatcher it is given.
    pub fn new(dispatcher: Dispatcher) -> (v: CounterView)
        ensures
            v.dispatcher == dispatcher,
            v.state == LoopState::Running,
    {
        CounterView { dispatcher, state: LoopState::Running }
    }

    /// The text to draw this iteration: a pure function of the counter
    /// value alone, so the text is unchanged whenever the value is.
    pub fn frame_text(&self) -> (s: String)
        ensures
            s@ == counter_text(self.value()),
    {
        render_text(self.dispatcher.store.count)
    }

    /// Maps one observed poll outcome to the action to dispatch: the up
    /// arrow to exactly one increment, the down arrow to exactly one
    /// decrement, any other key (`q` included) and an empty poll to none.
    pub fn handle_user_input(&self, event: Option<Key>) -> (action: Option<Action>)
        ensures
            action == event_action(event),
    {
        match event {
            Some(Key::Up) => Some(Action::Increment),
            Some(Key::Down) => Some(Action::Decrement),
            _ => None,
        }
    }

    /// The input phase of one iteration: maps the poll outcome and, if a
    /// key mapped to an action, dispatches that action at once. The loop
    /// state is untouched; the counter moves exactly by the mapped action.
    pub fn on_input(&mut self, event: Option<Key>)
        requires
            event_action(event) == Some(Action::Increment) ==> old(self).value() < i32::MAX,
            event_action(event) == Some(Action::Decrement) ==> old(self).value() > i32::MIN,
        ensures
            final(self).state == old(self).state,
            final(self).value() == match event_action(event) {
                Some(action) => apply_action(old(self).value(), action),
                None => old(self).value(),
            },
    {
        let action = self.handle_user_input(event);
        match action {
            Some(action) => self.dispatcher.dispatch(action),
            None => {},
        }
    }

    /// The quit phase of one iteration: the key `q` moves the loop to
    /// `Terminating`, whatever else was observed or pending; every other
    /// outcome leaves the state as it was. The counter is untouched.
    pub fn on_quit(&mut self, event: Option<Key>)
        ensures
            final(self).value() == old(self).value(),
            final(self).state == if is_quit(event) {
                LoopState::Terminating
            } else {
                old(self).state
            },
    {
        match event {
            Some(Key::Char(c)) => {
                if c == 'q' {
                    self.state = LoopState::Terminating;
                }
            },
            _ => {},
        }
    }

    /// Whether the loop should keep going.
    pub fn is_running(&self) -> (r: bool)
        ensures
            r == (self.state == LoopState::Running),
    {
        match self.state {
            LoopState::Running => true,
            LoopState::Terminating => false,
        }
    }
}

} // verus!
