use vstd::prelude::*;

use crate::action::Action;
use crate::base::{translates_event, Base, BaseState};

verus! {

/// The key that a key event names.
#[derive(Clone, Copy, Debug, PartialEq, Eq, Structural)]
pub enum KeyCode {
    Char(char),
    Backspace,
    Delete,
    Tab,
    Left,
    Right,
    Up,
    Down,
    Home,
    End,
    Enter,
    Esc,
    /// Any key that the application does not tell apart.
    Other,
}

/// Modifier keys held during a key event, as the terminal's bit set.
#[derive(Clone, Copy, Debug, PartialEq, Eq, Structural)]
pub struct KeyModifiers {
    pub bits: u8,
}

/// Bit of the control key.
pub const CONTROL: u8 = 0x02;

impl KeyModifiers {
    pub open spec fn has_control(self) -> bool {
        self.bits & CONTROL == CONTROL
    }

    /// No modifier held.
    pub fn none() -> (r: KeyModifiers)
        ensures
            r.bits == 0,
    {
        KeyModifiers { bits: 0 }
    }

    /// Only the control key held.
    pub fn control() -> (r: KeyModifiers)
        ensures
            r.bits == CONTROL,
            r.has_control(),
    {
        proof {
            assert(CONTROL & CONTROL == CONTROL) by (bit_vector);
        }
        KeyModifiers { bits: CONTROL }
    }

    /// Whether the control key is held.
    pub fn contains_control(&self) -> (r: bool)
        ensures
            r == self.has_control(),
    {
        self.bits & CONTROL == CONTROL
    }
}

/// Whether a key went down, came up, or is repeating.
#[derive(Clone, Copy, Debug, PartialEq, Eq, Structural)]
pub enum KeyEventKind {
    Press,
    Release,
    Repeat,
}

#[derive(Clone, Copy, Debug, PartialEq, Eq, Structural)]
pub struct KeyEvent {
    pub code: KeyCode,
    pub modifiers: KeyModifiers,
    pub kind: KeyEventKind,
}

impl KeyEvent {
    /// A key press with the given modifiers.
    pub fn new(code: KeyCode, modifiers: KeyModifiers) -> (r: KeyEvent)
        ensures
            r == (KeyEvent { code, modifiers, kind: KeyEventKind::Press }),
    {
        KeyEvent { code, modifiers, kind: KeyEventKind::Press }
    }
}

/// A mouse event, by the cell it happened on.
#[derive(Clone, Copy, Debug, PartialEq, Eq, Structural)]
pub struct MouseEvent {
    pub column: u16,
    pub row: u16,
}

/// A raw occurrence produced by the multiplexer, before the UI state tree
/// translates it into an action.
#[derive(Clone, Copy, Debug, PartialEq, Eq, Structural)]
pub enum Event {
    Quit,
    Error,
    Closed,
    RenderTick,
    AppTick,
    Key(KeyEvent),
    Mouse(MouseEvent),
    Resize(u16, u16),
}

/// What one read of the terminal's input stream gave.
#[derive(Clone, Copy, Debug, PartialEq, Eq, Structural)]
pub enum TerminalEvent {
    Key(KeyEvent),
    Mouse(MouseEvent),
    Resize(u16, u16),
    /// Focus changes, pastes and the like.
    Other,
    /// The read failed.
    ReadError,
    /// The stream has ended.
    Ended,
}

/// The source that one round of the multiplexer's select serviced.
#[derive(Clone, Copy, Debug, PartialEq, Eq, Structural)]
pub enum Occurrence {
    Cancelled,
    Input(TerminalEvent),
    AppTick,
    RenderTick,
}

/// Whether the multiplexer goes on after a round.
#[derive(Clone, Copy, Debug, PartialEq, Eq, Structural)]
pub enum Flow {
    Continue,
    Exit,
}

/// The raw event, if any, that a read of terminal input yields: key events
/// only when pressed (releases and repeats are dropped), resizes, and an
/// `Error` for a failed read.
pub open spec fn input_event(t: TerminalEvent) -> Option<Event> {
    match t {
        TerminalEvent::Key(k) => if k.kind == KeyEventKind::Press {
            Some(Event::Key(k))
        } else {
            None
        },
        TerminalEvent::Resize(w, h) => Some(Event::Resize(w, h)),
        TerminalEvent::ReadError => Some(Event::Error),
        _ => None,
    }
}

/// The raw event, if any, that one serviced source yields.
pub open spec fn occurrence_event(o: Occurrence) -> Option<Event> {
    match o {
        Occurrence::Cancelled => None,
        Occurrence::Input(t) => input_event(t),
        Occurrence::AppTick => Some(Event::AppTick),
        Occurrence::RenderTick => Some(Event::RenderTick),
    }
}

/// The oldest raw event of a queue, if any.
pub open spec fn front(q: Seq<Event>) -> Option<Event> {
    if q.len() == 0 {
        None
    } else {
        Some(q[0])
    }
}

/// Translates one read of terminal input into a raw event.
pub fn translate_input(t: TerminalEvent) -> (r: Option<Event>)
    ensures
        r == input_event(t),
{
    match t {
        TerminalEvent::Key(k) => match k.kind {
            KeyEventKind::Press => Some(Event::Key(k)),
            _ => None,
        },
        TerminalEvent::Resize(w, h) => Some(Event::Resize(w, h)),
        TerminalEvent::ReadError => Some(Event::Error),
        _ => None,
    }
}

/// The input/timer multiplexer's state: its two tick periods, whether it has
/// been cancelled, and its internal queue of raw events that wait to be
/// translated by the UI state tree.
pub struct EventHandler {
    tick_rate: (u64, u64),
    cancelled: bool,
    queue: Vec<Event>,
}

impl EventHandler {
    pub closed spec fn periods(&self) -> (u64, u64) {
        self.tick_rate
    }

    pub closed spec fn is_cancelled(&self) -> bool {
        self.cancelled
    }

    /// The raw events waiting in the internal queue, oldest first.
    pub closed spec fn pending(&self) -> Seq<Event> {
        self.queue@
    }

    /// A multiplexer with the given (logic-tick, render-tick) periods in
    /// milliseconds, not cancelled, with an empty queue.
    pub fn new(tick_rate: (u64, u64)) -> (r: EventHandler)
        ensures
            r.periods() == tick_rate,
            !r.is_cancelled(),
            r.pending() == Seq::<Event>::empty(),
    {
        EventHandler { tick_rate, cancelled: false, queue: Vec::new() }
    }

    /// The (logic-tick, render-tick) periods in milliseconds.
    pub fn tick_rate(&self) -> (r: (u64, u64))
        ensures
            r == self.periods(),
    {
        self.tick_rate
    }

    /// Requests cancellation: the next round of the select exits.
    pub fn stop(&mut self)
        ensures
            final(self).is_cancelled(),
            final(self).periods() == old(self).periods(),
            final(self).pending() == old(self).pending(),
    {
        self.cancelled = true;
    }

    /// Whether cancellation has been requested.
    pub fn cancelled(&self) -> (r: bool)
        ensures
            r == self.is_cancelled(),
    {
        self.cancelled
    }

    /// Services one source of the select. Cancellation ends the task; any
    /// other source appends the raw event that it yields, if any, to the
    /// internal queue.
    pub fn observe(&mut self, o: Occurrence) -> (r: Flow)
        ensures
            r == (if o == Occurrence::Cancelled { Flow::Exit } else { Flow::Continue }),
            final(self).periods() == old(self).periods(),
            final(self).is_cancelled() == (old(self).is_cancelled() || o == Occurrence::Cancelled),
            final(self).pending() == match occurrence_event(o) {
                Some(e) => old(self).pending().push(e),
                None => old(self).pending(),
            },
    {
        match o {
            Occurrence::Cancelled => {
                self.cancelled = true;
                return Flow::Exit;
            },
            Occurrence::Input(t) => {
                if let Some(e) = translate_input(t) {
                    self.queue.push(e);
                }
            },
            Occurrence::AppTick => self.queue.push(Event::AppTick),
            Occurrence::RenderTick => self.queue.push(Event::RenderTick),
        }
        Flow::Continue
    }

    /// Takes the oldest waiting raw event out of the internal queue, to be
    /// translated by the UI state tree.
    pub fn next_event(&mut self) -> (r: Option<Event>)
        ensures
            final(self).periods() == old(self).periods(),
            final(self).is_cancelled() == old(self).is_cancelled(),
            old(self).pending().len() == 0 ==> r.is_none(),
            old(self).pending().len() == 0 ==> final(self).pending() == old(self).pending(),
            old(self).pending().len() > 0 ==> r == Some(old(self).pending()[0]),
            old(self).pending().len() > 0 ==> final(self).pending() == old(self).pending().drop_first(),
    {
        if self.queue.len() == 0 {
            None
        } else {
            let e = self.queue.remove(0);
            proof {
                assert(self.queue@ =~= old(self).queue@.drop_first());
            }
            Some(e)
        }
    }

    /// Takes the oldest waiting raw event and has the UI state tree `tree`
    /// translate it into the action to forward to the application loop.
    pub fn translate_next(&mut self, tree: &mut Base) -> (r: Action)
        ensures
            final(self).periods() == old(self).periods(),
            final(self).is_cancelled() == old(self).is_cancelled(),
            final(self).pending() == if old(self).pending().len() == 0 {
                old(self).pending()
            } else {
                old(self).pending().drop_first()
            },
            translates_event(old(tree)@, front(old(self).pending()), final(tree)@, r),
    {
        let event = self.next_event();
        tree.translate_event(event)
    }

    /// Whether raw events wait in the internal queue.
    pub fn has_pending(&self) -> (r: bool)
        ensures
            r == (self.pending().len() > 0),
    {
        self.queue.len() > 0
    }
}

/// A key event of kind "press" yields exactly one raw event, the key itself;
/// one of kind "release" or "repeat" yields none.
pub proof fn lemma_only_presses_emitted(k: KeyEvent)
    ensures
        k.kind == KeyEventKind::Press ==> occurrence_event(Occurrence::Input(TerminalEvent::Key(k)))
            == Some(Event::Key(k)),
        k.kind != KeyEventKind::Press ==> occurrence_event(
            Occurrence::Input(TerminalEvent::Key(k)),
        ).is_none(),
{
}

/// A terminal resize yields exactly one raw event, which the UI state tree
/// translates into a `Resize` action of the same size, leaving its state as
/// it was.
pub proof fn lemma_resize_forwarded(w: u16, h: u16, s: BaseState, t: BaseState, r: Action)
    requires
        translates_event(s, occurrence_event(Occurrence::Input(TerminalEvent::Resize(w, h))), t, r),
    ensures
        occurrence_event(Occurrence::Input(TerminalEvent::Resize(w, h))) == Some(Event::Resize(w, h)),
        r == Action::Resize(w, h),
        t == s,
{
}

} // verus!
