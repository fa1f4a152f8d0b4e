use nanos_ui::{Element, Event, Menu};

#[derive(Debug, Default)]
struct Sub {
    events: Vec<Event>,
    drawn: std::cell::Cell<u32>,
}

impl Element for Sub {
    fn evt(&mut self, evt: Event) {
        self.events.push(evt);
    }

    fn draw(&self) {
        self.drawn.set(self.drawn.get() + 1);
    }
}

enum Screen {
    Idle,
    Active(Sub),
    Other(Sub),
}

#[derive(Copy, Clone, Debug, PartialEq)]
enum ScreenState {
    Idle,
    Active,
    Other,
}

impl Menu for Screen {
    type State = ScreenState;
}

impl Element for Screen {
    fn evt(&mut self, evt: Event) {
        match self {
            Self::Idle { .. } => (),
            Self::Active(d) => d.evt(evt),
            Self::Other(d) => d.evt(evt),
        }
    }

    fn draw(&self) {
        match self {
            Self::Idle { .. } => (),
            Self::Active(d) => d.draw(),
            Self::Other(d) => d.draw(),
        }
    }
}

enum Forms {
    Bare,
    Round(),
    Curly {},
    Wrapped(Sub),
}

#[derive(Copy, Clone, Debug, PartialEq)]
enum FormsState {
    Bare,
    Round,
    Curly,
    Wrapped,
}

impl Menu for Forms {
    type State = FormsState;
}

impl Element for Forms {
    fn evt(&mut self, evt: Event) {
        match self {
            Self::Bare { .. } => (),
            Self::Round { .. } => (),
            Self::Curly { .. } => (),
            Self::Wrapped(d) => d.evt(evt),
        }
    }

    fn draw(&self) {
        match self {
            Self::Bare { .. } => (),
            Self::Round { .. } => (),
            Self::Curly { .. } => (),
            Self::Wrapped(d) => d.draw(),
        }
    }
}

fn state_of<M: Menu>(_: &M, state: M::State) -> String {
    format!("{:?}", state)
}

#[test]
fn written_expansion_matches_what_is_derived() {
    let text = nanos_ui::expand_source("enum Screen { Idle, Active(Sub), Other(Sub) }").unwrap();
    assert!(text.contains("enum ScreenState {\n    Idle,\n    Active,\n    Other,\n}\n"));
    assert!(text.contains("impl ::nanos_ui::Menu for Screen {\n    type State = ScreenState;\n}\n"));
    assert!(text.contains(
        "        match self {\n            Self::Idle { .. } => (),\n            Self::Active(d) => d.evt(evt),\n            Self::Other(d) => d.evt(evt),\n        }\n"
    ));
    assert!(text.contains(
        "        match self {\n            Self::Idle { .. } => (),\n            Self::Active(d) => d.draw(),\n            Self::Other(d) => d.draw(),\n        }\n"
    ));
}

#[test]
fn event_reaches_the_active_payload_once() {
    let mut screen = Screen::Active(Sub::default());
    screen.evt(Event::Right);
    match &screen {
        Screen::Active(sub) => {
            assert_eq!(sub.events, vec![Event::Right]);
            assert_eq!(sub.drawn.get(), 0);
        },
        _ => panic!("the variant changed"),
    }
}

#[test]
fn events_arrive_unchanged_and_in_order() {
    let mut screen = Screen::Other(Sub::default());
    for e in [Event::Left, Event::Both, Event::Right, Event::Left] {
        screen.evt(e);
    }
    match &screen {
        Screen::Other(sub) => {
            assert_eq!(sub.events, vec![Event::Left, Event::Both, Event::Right, Event::Left])
        },
        _ => panic!("the variant changed"),
    }
}

#[test]
fn idle_takes_an_event_and_does_nothing() {
    let mut screen = Screen::Idle;
    screen.evt(Event::Both);
    screen.draw();
    assert!(matches!(screen, Screen::Idle));
}

#[test]
fn draw_reaches_the_active_payload_once() {
    let screen = Screen::Active(Sub::default());
    screen.draw();
    match &screen {
        Screen::Active(sub) => {
            assert_eq!(sub.drawn.get(), 1);
            assert!(sub.events.is_empty());
        },
        _ => panic!("the variant changed"),
    }
}

#[test]
fn state_descriptor_is_a_plain_value() {
    let screen = Screen::Idle;
    let state = ScreenState::Active;
    let copy = state;
    assert_eq!(state, copy);
    assert_ne!(ScreenState::Idle, ScreenState::Other);
    assert_eq!(state_of(&screen, ScreenState::Other), "Other");
}

#[test]
fn events_are_plain_values() {
    let e = Event::Left;
    let copy = e;
    assert_eq!(e, copy);
    assert_ne!(Event::Left, Event::Right);
    assert_ne!(Event::Right, Event::Both);
    assert_eq!(format!("{:?}", Event::Both), "Both");
}

#[test]
fn written_expansion_of_every_empty_form_matches_what_is_derived() {
    let text =
        nanos_ui::expand_source("enum Forms { Bare, Round(), Curly {}, Wrapped(Sub) }").unwrap();
    assert!(text.contains("enum FormsState {\n    Bare,\n    Round,\n    Curly,\n    Wrapped,\n}\n"));
    assert!(text.contains(
        "        match self {\n            Self::Bare { .. } => (),\n            Self::Round { .. } => (),\n            Self::Curly { .. } => (),\n            Self::Wrapped(d) => d.evt(evt),\n        }\n"
    ));
    assert!(text.contains(
        "        match self {\n            Self::Bare { .. } => (),\n            Self::Round { .. } => (),\n            Self::Curly { .. } => (),\n            Self::Wrapped(d) => d.draw(),\n        }\n"
    ));
}

#[test]
fn every_empty_form_takes_an_event_and_does_nothing() {
    for mut value in [Forms::Bare, Forms::Round(), Forms::Curly {}] {
        value.evt(Event::Left);
        value.draw();
        assert!(!matches!(value, Forms::Wrapped(_)));
    }
    let mut wrapped = Forms::Wrapped(Sub::default());
    wrapped.evt(Event::Both);
    match &wrapped {
        Forms::Wrapped(sub) => assert_eq!(sub.events, vec![Event::Both]),
        _ => panic!("the variant changed"),
    }
    assert_eq!(state_of(&wrapped, FormsState::Round), "Round");
    assert_ne!(FormsState::Bare, FormsState::Curly);
    assert_ne!(FormsState::Curly, FormsState::Wrapped);
}
