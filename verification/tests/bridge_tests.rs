use efl::DispatchOutcome;
use efl::EventHandler;
use efl::EventKind;
use efl::InputHandler;
use efl::InputKind;
use efl::NativeHost;
use efl::Window;
use efl::events::Hold;
use efl::events::InputEvent;
use efl::events::KeyDown;
use efl::events::Lock;
use efl::events::Modifier;

#[derive(Debug, PartialEq, Eq)]
struct CountingEvent {
    id: u32,
    hits: u32,
    last_kind: Option<EventKind>,
}

impl CountingEvent {
    fn new(id: u32) -> CountingEvent {
        CountingEvent { id, hits: 0, last_kind: None }
    }
}

impl EventHandler for CountingEvent {
    fn on_event(&mut self, kind: EventKind) {
        self.hits += 1;
        self.last_kind = Some(kind);
    }
}

#[derive(Debug, PartialEq, Eq)]
struct CountingInput {
    id: u32,
    hits: u32,
    last_kind: Option<InputKind>,
}

impl CountingInput {
    fn new(id: u32) -> CountingInput {
        CountingInput { id, hits: 0, last_kind: None }
    }
}

impl InputHandler for CountingInput {
    fn on_input(&mut self, event: &InputEvent) {
        self.hits += 1;
        self.last_kind = Some(event.kind());
    }
}

fn host() -> NativeHost {
    NativeHost {
        create_ok: true,
        default_engine: String::from("software_x11"),
        screen_x: 0,
        screen_y: 0,
        screen_w: 1920,
        screen_h: 1080,
        screen_xdpi: 96,
        screen_ydpi: 96,
        pointer_x: 10,
        pointer_y: 20,
    }
}

fn make_window() -> Window<CountingEvent, CountingInput> {
    let ctx = efl::init(false, true, true, vec![String::from("software_x11")]).unwrap();
    ctx.build_window(0, 0, 800, 600).create(&host()).unwrap()
}

fn hold_event() -> InputEvent {
    InputEvent::Hold(Hold { hold: 1, timestamp: 42, event_flags: 0 })
}

fn key_down_event() -> InputEvent {
    InputEvent::KeyDown(KeyDown {
        keyname: vec![b'a', 0],
        key: vec![b'a', 0],
        string: vec![b'a', 0],
        compose: vec![b'a', 0],
        modifiers: Modifier { names: vec![] },
        locks: Lock { names: vec![] },
        timestamp: 7,
        event_flags: 0,
        keycode: 38,
    })
}

#[test]
fn set_then_trigger_dispatches_exactly_once() {
    let mut w = make_window();
    let prev = w.set_event_callback(EventKind::Resize, CountingEvent::new(1));
    assert!(prev.is_none());
    let outcome = w.feed_event(EventKind::Resize);
    assert_eq!(outcome, DispatchOutcome::Dispatched);
    let handler = w.unset_event_callback(EventKind::Resize).unwrap();
    assert_eq!(handler.hits, 1);
    assert_eq!(handler.last_kind, Some(EventKind::Resize));
}

#[test]
fn trigger_reaches_only_the_matching_kind() {
    let mut w = make_window();
    w.set_event_callback(EventKind::Resize, CountingEvent::new(1));
    w.set_event_callback(EventKind::FocusIn, CountingEvent::new(2));
    assert_eq!(w.feed_event(EventKind::Resize), DispatchOutcome::Dispatched);
    assert_eq!(w.feed_event(EventKind::Resize), DispatchOutcome::Dispatched);
    let resize = w.unset_event_callback(EventKind::Resize).unwrap();
    let focus = w.unset_event_callback(EventKind::FocusIn).unwrap();
    assert_eq!(resize.hits, 2);
    assert_eq!(focus.hits, 0);
}

#[test]
fn unset_then_trigger_heals_without_dispatch() {
    let mut w = make_window();
    w.set_event_callback(EventKind::DeleteRequest, CountingEvent::new(1));
    let handler = w.unset_event_callback(EventKind::DeleteRequest).unwrap();
    assert_eq!(handler.hits, 0);
    let outcome = w.feed_event(EventKind::DeleteRequest);
    assert_eq!(outcome, DispatchOutcome::Healed);
    assert!(w.unset_event_callback(EventKind::DeleteRequest).is_none());
    let again = w.feed_event(EventKind::DeleteRequest);
    assert_eq!(again, DispatchOutcome::Healed);
}

#[test]
fn trigger_of_never_set_kind_heals() {
    let mut w = make_window();
    assert_eq!(w.feed_event(EventKind::PreFree), DispatchOutcome::Healed);
    assert_eq!(w.feed_event(EventKind::StateChange), DispatchOutcome::Healed);
}

#[test]
fn second_set_returns_first_handler() {
    let mut w = make_window();
    let none = w.set_event_callback(EventKind::Move, CountingEvent::new(1));
    assert!(none.is_none());
    let first = w.set_event_callback(EventKind::Move, CountingEvent::new(2)).unwrap();
    assert_eq!(first.id, 1);
    assert_eq!(first.hits, 0);
    assert_eq!(w.feed_event(EventKind::Move), DispatchOutcome::Dispatched);
    let second = w.unset_event_callback(EventKind::Move).unwrap();
    assert_eq!(second.id, 2);
    assert_eq!(second.hits, 1);
}

#[test]
fn input_set_then_trigger_dispatches_exactly_once() {
    let mut w = make_window();
    let prev = w.set_input_callback(InputKind::Hold, CountingInput::new(1));
    assert!(prev.is_none());
    let outcome = w.feed_input(&hold_event());
    assert_eq!(outcome, DispatchOutcome::Dispatched);
    let handler = w.unset_input_callback(InputKind::Hold).unwrap();
    assert_eq!(handler.hits, 1);
    assert_eq!(handler.last_kind, Some(InputKind::Hold));
}

#[test]
fn input_unset_then_trigger_heals() {
    let mut w = make_window();
    w.set_input_callback(InputKind::KeyDown, CountingInput::new(1));
    let handler = w.unset_input_callback(InputKind::KeyDown).unwrap();
    assert_eq!(handler.hits, 0);
    assert_eq!(w.feed_input(&key_down_event()), DispatchOutcome::Healed);
}

#[test]
fn input_second_set_returns_first_handler() {
    let mut w = make_window();
    assert!(w.set_input_callback(InputKind::KeyDown, CountingInput::new(1)).is_none());
    let first = w.set_input_callback(InputKind::KeyDown, CountingInput::new(2)).unwrap();
    assert_eq!(first.id, 1);
    assert_eq!(w.feed_input(&key_down_event()), DispatchOutcome::Dispatched);
    let second = w.unset_input_callback(InputKind::KeyDown).unwrap();
    assert_eq!(second.id, 2);
    assert_eq!(second.hits, 1);
}

#[test]
fn input_trigger_routes_by_payload_kind() {
    let mut w = make_window();
    w.set_input_callback(InputKind::Hold, CountingInput::new(1));
    assert_eq!(w.feed_input(&key_down_event()), DispatchOutcome::Healed);
    assert_eq!(w.feed_input(&hold_event()), DispatchOutcome::Dispatched);
    let handler = w.unset_input_callback(InputKind::Hold).unwrap();
    assert_eq!(handler.hits, 1);
}
