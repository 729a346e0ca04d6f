use shadotui::{
    driver_step, input_cursor, input_text_width, Action, App, Base, Command, Component,
    DriverStep, Effect, Event, EventHandler, Flow, KeyCode, KeyEvent, KeyEventKind,
    KeyModifiers, Message, Mode, MouseEvent, Occurrence, Other, Phase, Route, TerminalEvent,
};

fn key(code: KeyCode) -> KeyEvent {
    KeyEvent::new(code, KeyModifiers::none())
}

fn ctrl(c: char) -> KeyEvent {
    KeyEvent::new(KeyCode::Char(c), KeyModifiers::control())
}

fn with_kind(code: KeyCode, kind: KeyEventKind) -> KeyEvent {
    KeyEvent { code, modifiers: KeyModifiers::none(), kind }
}

#[test]
fn key_press_emits_exactly_one_event() {
    let mut h = EventHandler::new((1000, 50));
    let k = key(KeyCode::Char('x'));
    assert_eq!(h.observe(Occurrence::Input(TerminalEvent::Key(k))), Flow::Continue);
    assert_eq!(h.next_event(), Some(Event::Key(k)));
    assert_eq!(h.next_event(), None);
}

#[test]
fn key_release_and_repeat_emit_nothing() {
    let mut h = EventHandler::new((1000, 50));
    let up = with_kind(KeyCode::Char('x'), KeyEventKind::Release);
    let again = with_kind(KeyCode::Char('x'), KeyEventKind::Repeat);
    h.observe(Occurrence::Input(TerminalEvent::Key(up)));
    h.observe(Occurrence::Input(TerminalEvent::Key(again)));
    assert!(!h.has_pending());
    assert_eq!(h.next_event(), None);
}

#[test]
fn multiplexer_queues_in_order() {
    let mut h = EventHandler::new((1000, 50));
    h.observe(Occurrence::AppTick);
    h.observe(Occurrence::Input(TerminalEvent::ReadError));
    h.observe(Occurrence::Input(TerminalEvent::Other));
    h.observe(Occurrence::Input(TerminalEvent::Ended));
    h.observe(Occurrence::Input(TerminalEvent::Mouse(MouseEvent { column: 1, row: 2 })));
    h.observe(Occurrence::RenderTick);
    assert_eq!(h.next_event(), Some(Event::AppTick));
    assert_eq!(h.next_event(), Some(Event::Error));
    assert_eq!(h.next_event(), Some(Event::RenderTick));
    assert_eq!(h.next_event(), None);
}

#[test]
fn multiplexer_cancellation_exits() {
    let mut h = EventHandler::new((1000, 50));
    assert!(!h.cancelled());
    assert_eq!(h.observe(Occurrence::Cancelled), Flow::Exit);
    assert!(h.cancelled());
    let mut g = EventHandler::new((7, 9));
    g.stop();
    assert!(g.cancelled());
    assert_eq!(g.tick_rate(), (7, 9));
}

#[test]
fn plain_actions_reach_dispatch_in_order() {
    let mut app = App::new((1000, 50));
    let actions = vec![Action::Tick, Action::Resize(3, 4), Action::Increment(3), Action::Noop];
    let mut reached = Vec::new();
    for a in actions.clone() {
        match app.route(a) {
            Route::Dispatch(x) => reached.push(x),
            other => panic!("not dispatched: {:?}", other),
        }
        assert_eq!(app.phase(), Phase::Continue);
    }
    assert_eq!(reached, actions);
}

#[test]
fn render_tick_goes_to_render_driver() {
    let mut app = App::new((1000, 50));
    assert_eq!(app.route(Action::RenderTick), Route::Render);
    assert_eq!(app.phase(), Phase::Continue);
}

#[test]
fn suspend_resume_keeps_state() {
    let mut app = App::new((1000, 50));
    let mut base = Base::new();
    base.dispatch(Action::Increment(3));
    base.dispatch(Action::Tick);
    assert_eq!(app.route(Action::Suspend), Route::Handled);
    assert_eq!(app.phase(), Phase::Suspend);
    for a in App::resume_actions() {
        if let Route::Dispatch(x) = app.route(a) {
            base.dispatch(x);
        }
    }
    assert_eq!(App::resume_actions(), vec![Action::Resume, Action::RenderTick]);
    assert_eq!(app.phase(), Phase::Continue);
    assert_eq!(base.counter(), 3);
    assert_eq!(base.ticker(), 1);
}

#[test]
fn ticks_count_exactly() {
    let mut base = Base::new();
    for _ in 0..5 {
        assert_eq!(base.dispatch(Action::Tick), None);
    }
    assert_eq!(base.ticker(), 5);
    assert_eq!(base.counter(), 0);
}

#[test]
fn counter_saturates_both_ways() {
    let mut base = Base::new();
    base.dispatch(Action::Increment(usize::MAX));
    base.dispatch(Action::Increment(1));
    assert_eq!(base.counter(), usize::MAX);
    base.dispatch(Action::Decrement(usize::MAX));
    base.dispatch(Action::Decrement(4));
    assert_eq!(base.counter(), 0);
}

#[test]
fn resize_is_forwarded_unchanged() {
    let mut h = EventHandler::new((1000, 50));
    let mut app = App::new(h.tick_rate());
    let mut base = Base::new();
    h.observe(Occurrence::Input(TerminalEvent::Resize(80, 24)));
    let event = h.next_event();
    assert_eq!(event, Some(Event::Resize(80, 24)));
    let action = base.handle_events(event);
    assert_eq!(action, Action::Resize(80, 24));
    assert_eq!(app.route(action), Route::Dispatch(Action::Resize(80, 24)));
}

#[test]
fn complete_input_notifies_attached_sink() {
    let mut base = Base::new();
    base.init(true);
    let r = base.dispatch(Action::CompleteInput("hello".to_string()));
    assert_eq!(r, Some(Action::EnterNormal));
    assert_eq!(
        base.take_effects(),
        vec![Effect::Notify(Message::HelloWorld("hello".to_string()))]
    );
    assert!(base.take_effects().is_empty());
}

#[test]
fn complete_input_without_sink_notifies_nothing() {
    let mut base = Base::new();
    let r = base.dispatch(Action::CompleteInput("hello".to_string()));
    assert_eq!(r, Some(Action::EnterNormal));
    assert!(base.take_effects().is_empty());
}

#[test]
fn quit_stops_both_tasks() {
    let mut app = App::new((1000, 50));
    let mut h = EventHandler::new(app.tick_rate());
    assert_eq!(app.route(Action::Quit), Route::Handled);
    assert_eq!(app.phase(), Phase::Quit);
    assert_eq!(driver_step(Some(Command::Stop)), DriverStep::Exit);
    h.stop();
    assert_eq!(h.observe(Occurrence::Cancelled), Flow::Exit);
}

#[test]
fn suspend_takes_precedence_over_quit() {
    let mut app = App::new((1000, 50));
    app.route(Action::Quit);
    app.route(Action::Suspend);
    assert_eq!(app.phase(), Phase::Suspend);
    app.route(Action::Resume);
    assert_eq!(app.phase(), Phase::Quit);
}

#[test]
fn render_driver_steps() {
    assert_eq!(driver_step(Some(Command::Render)), DriverStep::Draw);
    assert_eq!(driver_step(Some(Command::Suspend)), DriverStep::SuspendAndExit);
    assert_eq!(driver_step(None), DriverStep::Wait);
}

#[test]
fn command_keys() {
    let mut base = Base::new();
    assert_eq!(base.handle_events(Some(Event::Key(key(KeyCode::Char('q'))))), Action::Quit);
    assert_eq!(base.handle_events(Some(Event::Key(ctrl('d')))), Action::Quit);
    assert_eq!(base.handle_events(Some(Event::Key(ctrl('c')))), Action::Quit);
    assert_eq!(base.handle_events(Some(Event::Key(ctrl('z')))), Action::Suspend);
    assert_eq!(base.handle_events(Some(Event::Key(key(KeyCode::Char('d'))))), Action::Tick);
    assert_eq!(base.handle_events(Some(Event::Key(key(KeyCode::Char('l'))))), Action::ToggleShowLogger);
    assert_eq!(base.handle_events(Some(Event::Key(key(KeyCode::Char('j'))))), Action::ScheduleIncrement);
    assert_eq!(base.handle_events(Some(Event::Key(key(KeyCode::Char('k'))))), Action::ScheduleDecrement);
    assert_eq!(base.handle_events(Some(Event::Key(key(KeyCode::Char('/'))))), Action::EnterInsert);
    assert_eq!(base.handle_events(Some(Event::Key(key(KeyCode::Enter)))), Action::Tick);
}

#[test]
fn generic_events_translate() {
    let mut base = Base::new();
    assert_eq!(base.handle_events(Some(Event::AppTick)), Action::Tick);
    assert_eq!(base.handle_events(Some(Event::RenderTick)), Action::RenderTick);
    assert_eq!(base.handle_events(Some(Event::Quit)), Action::Quit);
    assert_eq!(base.handle_events(Some(Event::Error)), Action::Noop);
    assert_eq!(base.handle_events(Some(Event::Closed)), Action::Noop);
    assert_eq!(base.handle_events(None), Action::Noop);
    let mut other = Other::new();
    assert_eq!(other.handle_events(Some(Event::Key(key(KeyCode::Char('q'))))), Action::Noop);
    assert_eq!(other.dispatch(Action::Tick), None);
}

#[test]
fn insert_mode_collects_typed_text() {
    let mut base = Base::new();
    base.dispatch(Action::EnterInsert);
    assert_eq!(base.mode(), Mode::Insert);
    assert_eq!(base.handle_events(Some(Event::Key(key(KeyCode::Char('h'))))), Action::Update);
    assert_eq!(base.handle_events(Some(Event::Key(key(KeyCode::Char('q'))))), Action::Update);
    assert_eq!(base.handle_events(Some(Event::Key(key(KeyCode::Backspace)))), Action::Update);
    assert_eq!(base.handle_events(Some(Event::Key(key(KeyCode::Char('i'))))), Action::Update);
    assert_eq!(
        base.handle_events(Some(Event::Key(key(KeyCode::Enter)))),
        Action::CompleteInput("hi".to_string())
    );
    assert_eq!(base.handle_events(Some(Event::Key(key(KeyCode::Esc)))), Action::EnterNormal);
    assert_eq!(base.text(), "hi");
    assert_eq!(base.cursor(), 2);
}

#[test]
fn modes_follow_actions() {
    let mut base = Base::new();
    assert_eq!(base.mode(), Mode::Normal);
    base.dispatch(Action::EnterProcessing);
    assert_eq!(base.mode(), Mode::Processing);
    assert_eq!(base.handle_events(Some(Event::Key(key(KeyCode::Char('q'))))), Action::Quit);
    base.dispatch(Action::ExitProcessing);
    assert_eq!(base.mode(), Mode::Normal);
    base.dispatch(Action::EnterInsert);
    base.dispatch(Action::EnterNormal);
    assert_eq!(base.mode(), Mode::Normal);
    assert!(!base.show_other());
    base.dispatch(Action::ToggleShowLogger);
    assert!(base.show_other());
}

#[test]
fn scheduling_queues_a_pending_operation() {
    let mut base = Base::new();
    base.dispatch(Action::ScheduleIncrement);
    base.dispatch(Action::ScheduleDecrement);
    assert_eq!(
        base.take_effects(),
        vec![
            Effect::Delayed {
                start: Action::EnterProcessing,
                delay_secs: 5,
                effect: Action::Increment(1),
                finish: Action::ExitProcessing,
            },
            Effect::Delayed {
                start: Action::EnterProcessing,
                delay_secs: 5,
                effect: Action::Decrement(1),
                finish: Action::ExitProcessing,
            },
        ]
    );
    assert_eq!(base.counter(), 0);
}

#[test]
fn input_box_geometry() {
    assert_eq!(input_text_width(2), 0);
    assert_eq!(input_text_width(3), 0);
    assert_eq!(input_text_width(10), 7);
    assert_eq!(input_cursor(4, 6, 10, 2), (7, 7));
    assert_eq!(input_cursor(4, 6, 10, 50), (12, 7));
}

#[test]
fn drain_translates_queued_events() {
    let mut h = EventHandler::new((1000, 50));
    let mut base = Base::new();
    h.observe(Occurrence::AppTick);
    h.observe(Occurrence::Input(TerminalEvent::Key(key(KeyCode::Char('j')))));
    h.observe(Occurrence::RenderTick);
    assert_eq!(h.translate_next(&mut base), Action::Tick);
    assert_eq!(h.translate_next(&mut base), Action::ScheduleIncrement);
    assert_eq!(h.translate_next(&mut base), Action::RenderTick);
    assert_eq!(h.translate_next(&mut base), Action::Noop);
    assert!(!h.has_pending());
}

#[test]
fn typed_hello_is_completed() {
    let mut base = Base::new();
    assert_eq!(base.text(), "");
    assert_eq!(base.cursor(), 0);
    base.dispatch(Action::EnterInsert);
    for c in ['h', 'e', 'l', 'l', 'o'] {
        assert_eq!(base.handle_key_events(key(KeyCode::Char(c))), Action::Update);
    }
    assert_eq!(
        base.handle_key_events(key(KeyCode::Enter)),
        Action::CompleteInput("hello".to_string())
    );
    assert_eq!(base.handle_key_events(key(KeyCode::Left)), Action::Update);
    assert_eq!(base.handle_key_events(key(KeyCode::Char('!'))), Action::Update);
    assert_eq!(base.text(), "hell!o");
    assert_eq!(base.cursor(), 5);
}

#[test]
fn released_keys_do_not_edit() {
    let mut base = Base::new();
    base.dispatch(Action::EnterInsert);
    let up = with_kind(KeyCode::Char('x'), KeyEventKind::Release);
    assert_eq!(base.handle_key_events(up), Action::Update);
    assert_eq!(base.text(), "");
}

#[test]
fn command_keys_leave_input_alone() {
    let mut base = Base::new();
    base.dispatch(Action::EnterInsert);
    base.handle_key_events(key(KeyCode::Char('a')));
    base.dispatch(Action::EnterNormal);
    assert_eq!(base.handle_key_events(key(KeyCode::Char('x'))), Action::Tick);
    assert_eq!(base.text(), "a");
    assert_eq!(base.cursor(), 1);
}

#[test]
fn other_defaults_do_nothing() {
    let mut other = Other::new();
    assert_eq!(other.handle_key_events(key(KeyCode::Char('q'))), Action::Noop);
    assert_eq!(other.handle_mouse_events(MouseEvent { column: 0, row: 0 }), Action::Noop);
    assert_eq!(other.handle_events(Some(Event::Mouse(MouseEvent { column: 3, row: 4 }))), Action::Noop);
    assert_eq!(other.handle_events(Some(Event::Resize(80, 24))), Action::Resize(80, 24));
    let mut base = Base::new();
    assert_eq!(base.handle_events(Some(Event::Mouse(MouseEvent { column: 3, row: 4 }))), Action::Noop);
}
