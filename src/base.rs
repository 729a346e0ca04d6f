use vstd::prelude::*;

use crate::action::{Action, Message};
use crate::components::{Component, Other};
use crate::event::{KeyCode, KeyEvent};
use crate::components::generic_action;
use crate::event::{Event, KeyEventKind};
use crossterm::event::{
    Event as TermEvent, KeyCode as TermKeyCode, KeyEvent as TermKey, KeyModifiers as TermMods,
};
use tui_input::backend::crossterm::EventHandler as InputEvents;

verus! {

/// The text and cursor of a one-line input buffer after a key press, given
/// its text, its cursor and the key's code and modifier bits.
pub uninterp spec fn edited(text: Seq<char>, cursor: usize, code: KeyCode, modifiers: u8) -> (
    Seq<char>,
    usize,
);

/// Relies on tui_input's `Input::new(..).with_cursor(..)` and its crossterm
/// `EventHandler::handle_event`: an `Input` is exactly a text and a cursor,
/// so the buffer after a key press depends on those and the key alone.
/// Keys that the buffer never reads are passed on as crossterm's `Null`.
#[verifier::external_body]
fn edit_text(text: &String, cursor: usize, code: KeyCode, modifiers: u8) -> (r: (String, usize))
    ensures
        (r.0@, r.1) == edited(text@, cursor, code, modifiers),
{
    let code = match code {
        KeyCode::Char(c) => TermKeyCode::Char(c),
        KeyCode::Backspace => TermKeyCode::Backspace,
        KeyCode::Delete => TermKeyCode::Delete,
        KeyCode::Left => TermKeyCode::Left,
        KeyCode::Right => TermKeyCode::Right,
        KeyCode::Home => TermKeyCode::Home,
        KeyCode::End => TermKeyCode::End,
        _ => TermKeyCode::Null,
    };
    let key = TermKey::new(code, TermMods::from_bits_truncate(modifiers));
    let mut input = tui_input::Input::new(text.clone()).with_cursor(cursor);
    InputEvents::handle_event(&mut input, &TermEvent::Key(key));
    (input.value().to_string(), input.cursor())
}

/// How the root component reads keys.
#[derive(Clone, Copy, Debug, PartialEq, Eq, Structural)]
pub enum Mode {
    Normal,
    Insert,
    Processing,
}

/// Seconds that a scheduled counter change waits before it takes effect.
pub const PROCESSING_DELAY_SECS: u64 = 5;

/// Work for the host to carry out on behalf of the state tree.
#[derive(Clone, Debug, PartialEq, Eq)]
pub enum Effect {
    /// Send this notification to the outbound message sink.
    Notify(Message),
    /// Enqueue `start` now, then after `delay_secs` seconds enqueue
    /// `effect` followed by `finish`.
    Delayed { start: Action, delay_secs: u64, effect: Action, finish: Action },
}

/// The persistent content of the root component.
pub struct BaseState {
    pub counter: usize,
    pub ticker: usize,
    pub mode: Mode,
    pub show_other: bool,
    /// Whether an outbound message sink is attached.
    pub notifying: bool,
    /// Effects not yet taken by the host, oldest first.
    pub outbox: Seq<Effect>,
    /// The text of the input line.
    pub text: Seq<char>,
    /// The input line's cursor, in characters.
    pub cursor: usize,
}

pub open spec fn sat_add(x: usize, y: usize) -> usize {
    if x + y > usize::MAX {
        usize::MAX
    } else {
        (x + y) as usize
    }
}

pub open spec fn sat_sub(x: usize, y: usize) -> usize {
    if x >= y {
        (x - y) as usize
    } else {
        0
    }
}

/// The pending operation that a scheduled counter change runs.
pub open spec fn scheduled(effect: Action) -> Effect {
    Effect::Delayed {
        start: Action::EnterProcessing,
        delay_secs: PROCESSING_DELAY_SECS,
        effect,
        finish: Action::ExitProcessing,
    }
}

/// The state after dispatching `a`.
pub open spec fn dispatched(s: BaseState, a: Action) -> BaseState {
    match a {
        Action::Tick => BaseState { ticker: sat_add(s.ticker, 1), ..s },
        Action::ToggleShowLogger => BaseState { show_other: !s.show_other, ..s },
        Action::ScheduleIncrement => BaseState {
            outbox: s.outbox.push(scheduled(Action::Increment(1))),
            ..s
        },
        Action::ScheduleDecrement => BaseState {
            outbox: s.outbox.push(scheduled(Action::Decrement(1))),
            ..s
        },
        Action::Increment(i) => BaseState { counter: sat_add(s.counter, i), ..s },
        Action::Decrement(i) => BaseState { counter: sat_sub(s.counter, i), ..s },
        Action::EnterNormal => BaseState { mode: Mode::Normal, ..s },
        Action::EnterInsert => BaseState { mode: Mode::Insert, ..s },
        Action::EnterProcessing => BaseState { mode: Mode::Processing, ..s },
        Action::ExitProcessing => BaseState { mode: Mode::Normal, ..s },
        Action::CompleteInput(text) => if s.notifying {
            BaseState { outbox: s.outbox.push(Effect::Notify(Message::HelloWorld(text))), ..s }
        } else {
            s
        },
        _ => s,
    }
}

/// The follow-up action that dispatching `a` asks to be re-enqueued.
pub open spec fn follow_up(a: Action) -> Option<Action> {
    match a {
        Action::CompleteInput(_) => Some(Action::EnterNormal),
        _ => None,
    }
}

/// The action for a key read in normal or processing mode.
pub open spec fn command_key_action(key: KeyEvent) -> Action {
    match key.code {
        KeyCode::Char('q') => Action::Quit,
        KeyCode::Char('d') if key.modifiers.has_control() => Action::Quit,
        KeyCode::Char('c') if key.modifiers.has_control() => Action::Quit,
        KeyCode::Char('z') if key.modifiers.has_control() => Action::Suspend,
        KeyCode::Char('l') => Action::ToggleShowLogger,
        KeyCode::Char('j') => Action::ScheduleIncrement,
        KeyCode::Char('k') => Action::ScheduleDecrement,
        KeyCode::Char('/') => Action::EnterInsert,
        _ => Action::Tick,
    }
}

/// Whether translating the pressed or released `key` from state `s` gives
/// state `t` and action `r`. In normal and processing modes keys map to
/// commands; in insert mode Esc leaves it, Enter yields the typed text, and
/// other keys yield `Update`, editing the text when pressed.
pub open spec fn translates_key(s: BaseState, key: KeyEvent, t: BaseState, r: Action) -> bool {
    if s.mode != Mode::Insert {
        t == s && r == command_key_action(key)
    } else {
        match key.code {
            KeyCode::Esc => t == s && r == Action::EnterNormal,
            KeyCode::Enter => t == s && (r matches Action::CompleteInput(x) && x@ == s.text),
            _ => r == Action::Update && t == if key.kind == KeyEventKind::Press {
                BaseState {
                    text: edited(s.text, s.cursor, key.code, key.modifiers.bits).0,
                    cursor: edited(s.text, s.cursor, key.code, key.modifiers.bits).1,
                    ..s
                }
            } else {
                s
            },
        }
    }
}

/// Whether translating `event` from state `s` gives state `t` and action
/// `r`: keys go to the key translator, mouse events give `Noop`, and every
/// other event gives its generic action; only keys change the state.
pub open spec fn translates_event(s: BaseState, event: Option<Event>, t: BaseState, r: Action) -> bool {
    match event {
        Some(Event::Key(k)) => translates_key(s, k, t, r),
        Some(Event::Mouse(_)) => t == s && r == Action::Noop,
        _ => t == s && r == generic_action(event),
    }
}

/// The root of the UI state tree: a counter changed by scheduled operations,
/// a tick counter, a text input, and a child panel that can be shown beside.
pub struct Base {
    counter: usize,
    text: String,
    cursor: usize,
    mode: Mode,
    ticker: usize,
    other: Other,
    show_other: bool,
    notifying: bool,
    outbox: Vec<Effect>,
}

impl View for Base {
    type V = BaseState;

    closed spec fn view(&self) -> BaseState {
        BaseState {
            counter: self.counter,
            ticker: self.ticker,
            mode: self.mode,
            show_other: self.show_other,
            notifying: self.notifying,
            outbox: self.outbox@,
            text: self.text@,
            cursor: self.cursor,
        }
    }
}

impl Base {
    /// A fresh root: counters at zero, normal mode, empty input, the child
    /// panel hidden, no message sink and no pending effects.
    pub fn new() -> (r: Base)
        ensures
            r@ == (BaseState {
                counter: 0,
                ticker: 0,
                mode: Mode::Normal,
                show_other: false,
                notifying: false,
                outbox: Seq::empty(),
                text: Seq::empty(),
                cursor: 0,
            }),
    {
        Base {
            counter: 0,
            text: String::new(),
            cursor: 0,
            mode: Mode::Normal,
            ticker: 0,
            other: Other {},
            show_other: false,
            notifying: false,
            outbox: Vec::new(),
        }
    }

    /// Records whether an outbound message sink is attached.
    pub fn attach(&mut self, notifying: bool)
        ensures
            final(self)@ == (BaseState { notifying, ..old(self)@ }),
    {
        self.notifying = notifying;
        self.other.init(notifying);
    }

    /// Translates a key into an action. In insert mode, keys other than Esc
    /// and Enter edit the text input when pressed and yield `Update`; Enter
    /// yields the text typed so far.
    pub fn translate_key(&mut self, key: KeyEvent) -> (r: Action)
        ensures
            translates_key(old(self)@, key, final(self)@, r),
    {
        match self.mode {
            Mode::Normal | Mode::Processing => {
                let control = key.modifiers.contains_control();
                match key.code {
                    KeyCode::Char('q') => Action::Quit,
                    KeyCode::Char('d') if control => Action::Quit,
                    KeyCode::Char('c') if control => Action::Quit,
                    KeyCode::Char('z') if control => Action::Suspend,
                    KeyCode::Char('l') => Action::ToggleShowLogger,
                    KeyCode::Char('j') => Action::ScheduleIncrement,
                    KeyCode::Char('k') => Action::ScheduleDecrement,
                    KeyCode::Char('/') => Action::EnterInsert,
                    _ => Action::Tick,
                }
            },
            Mode::Insert => match key.code {
                KeyCode::Esc => Action::EnterNormal,
                KeyCode::Enter => Action::CompleteInput(self.text.clone()),
                _ => {
                    if key.kind == KeyEventKind::Press {
                        let (text, cursor) = edit_text(&self.text, self.cursor, key.code, key.modifiers.bits);
                        self.text = text;
                        self.cursor = cursor;
                    }
                    Action::Update
                },
            },
        }
    }

    /// Translates a raw event into an action: keys go to `translate_key`,
    /// mouse events give `Noop`, and other events their generic action.
    pub fn translate_event(&mut self, event: Option<Event>) -> (r: Action)
        ensures
            translates_event(old(self)@, event, final(self)@, r),
    {
        match event {
            Some(Event::Quit) => Action::Quit,
            Some(Event::AppTick) => Action::Tick,
            Some(Event::RenderTick) => Action::RenderTick,
            Some(Event::Key(key_event)) => self.translate_key(key_event),
            Some(Event::Mouse(_)) => Action::Noop,
            Some(Event::Resize(x, y)) => Action::Resize(x, y),
            _ => Action::Noop,
        }
    }

    /// Performs the state change for `action` and returns the follow-up
    /// action to re-enqueue, if any.
    pub fn apply(&mut self, action: Action) -> (r: Option<Action>)
        ensures
            final(self)@ == dispatched(old(self)@, action),
            r == follow_up(action),
    {
        let ghost a = action;
        match action {
            Action::Tick => self.ticker = self.ticker.saturating_add(1),
            Action::ToggleShowLogger => self.show_other = !self.show_other,
            Action::ScheduleIncrement => self.schedule(Action::Increment(1)),
            Action::ScheduleDecrement => self.schedule(Action::Decrement(1)),
            Action::Increment(i) => self.counter = self.counter.saturating_add(i),
            Action::Decrement(i) => self.counter = self.counter.saturating_sub(i),
            Action::EnterNormal => self.mode = Mode::Normal,
            Action::CompleteInput(s) => {
                if self.notifying {
                    self.outbox.push(Effect::Notify(Message::HelloWorld(s)));
                }
                proof {
                    assert(self@ == dispatched(old(self)@, a));
                }
                return Some(Action::EnterNormal);
            },
            Action::EnterInsert => self.mode = Mode::Insert,
            Action::EnterProcessing => self.mode = Mode::Processing,
            Action::ExitProcessing => self.mode = Mode::Normal,
            _ => {},
        }
        proof {
            assert(self@ == dispatched(old(self)@, a));
        }
        None
    }

    fn schedule(&mut self, effect: Action)
        ensures
            final(self)@ == (BaseState {
                outbox: old(self)@.outbox.push(scheduled(effect)),
                ..old(self)@
            }),
    {
        self.outbox.push(
            Effect::Delayed {
                start: Action::EnterProcessing,
                delay_secs: PROCESSING_DELAY_SECS,
                effect,
                finish: Action::ExitProcessing,
            },
        );
    }

    /// Hands the pending effects to the host, oldest first, and clears them.
    pub fn take_effects(&mut self) -> (r: Vec<Effect>)
        ensures
            r@ == old(self)@.outbox,
            final(self)@ == (BaseState { outbox: Seq::empty(), ..old(self)@ }),
    {
        let mut out: Vec<Effect> = Vec::new();
        std::mem::swap(&mut out, &mut self.outbox);
        out
    }

    pub fn counter(&self) -> (r: usize)
        ensures
            r == self@.counter,
    {
        self.counter
    }

    pub fn ticker(&self) -> (r: usize)
        ensures
            r == self@.ticker,
    {
        self.ticker
    }

    pub fn mode(&self) -> (r: Mode)
        ensures
            r == self@.mode,
    {
        self.mode
    }

    pub fn show_other(&self) -> (r: bool)
        ensures
            r == self@.show_other,
    {
        self.show_other
    }

    /// The text of the input line.
    pub fn text(&self) -> (r: &String)
        ensures
            r@ == self@.text,
    {
        &self.text
    }

    /// The input line's cursor, in characters.
    pub fn cursor(&self) -> (r: usize)
        ensures
            r == self@.cursor,
    {
        self.cursor
    }

    /// The child panel, for drawing.
    pub fn other(&self) -> &Other {
        &self.other
    }
}

} // verus!
