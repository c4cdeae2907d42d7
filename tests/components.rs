use iced_tutorial::chaos::{self, Rgba};
use iced_tutorial::demo::{self, Demo};
use iced_tutorial::navigation;
use iced_tutorial::page_poker;
use iced_tutorial::quiz::{self, Quiz};
use iced_tutorial::screen::Screen;
use iced_tutorial::theming::{self, Theming};
use iced_tutorial::tutorial::{key_message, App, Command, Key, Message};

#[test]
fn quiz_records_latest_pick() {
    let mut q = Quiz::new();
    assert_eq!(q.answer(), None);
    let _ = q.update(quiz::Message::Answer(2));
    let _ = q.update(quiz::Message::Answer(1));
    let _ = q.update(quiz::Message::HttpAnswer(3));
    assert_eq!(q.answer(), Some(1));
    assert_eq!(q.http_answer(), Some(3));
    assert_eq!(q.button_answer(), None);
    assert_eq!(q.validation_answer(), None);
}

#[test]
fn demo_counts_events() {
    let mut d = Demo::new();
    assert_eq!((d.spacing(), d.padding()), (10, 10));
    let _ = d.update(demo::Message::ButtonClicked);
    let _ = d.update(demo::Message::ButtonClicked);
    let _ = d.update(demo::Message::InputChanged("hi".to_string()));
    let _ = d.update(demo::Message::InputSubmitted);
    let _ = d.update(demo::Message::SpacingChanged(24));
    let _ = d.update(demo::Message::PaddingChanged(4));
    assert_eq!(d.button_clicks(), 2);
    assert_eq!(d.input_changes(), 1);
    assert_eq!(d.input_submits(), 1);
    assert_eq!(d.input_text(), "hi");
    assert_eq!((d.spacing(), d.padding()), (24, 4));
}

#[test]
fn theming_picker_and_theme() {
    let mut t = Theming::new();
    assert_eq!(t.theme(), "Gruvbox Light");
    assert_eq!(t.hover_color(), Rgba { r: 77, g: 179, b: 255, a: 255 });
    assert_eq!(t.update(theming::Message::OpenColorPicker), theming::Action::Nothing);
    assert!(t.show_color_picker());
    let c = Rgba { r: 1, g: 2, b: 3, a: 255 };
    let _ = t.update(theming::Message::SubmitColor(c));
    assert!(!t.show_color_picker());
    assert_eq!(t.hover_color(), c);
    let _ = t.update(theming::Message::OpenColorPicker);
    let _ = t.update(theming::Message::CancelColorPicker);
    assert!(!t.show_color_picker());
    assert_eq!(t.hover_color(), c);
    assert_eq!(
        t.update(theming::Message::ThemeChanged("Dracula".to_string())),
        theming::Action::ThemeChanged
    );
    assert_eq!(t.theme(), "Dracula");
}

#[test]
fn keys_map_to_messages() {
    assert!(matches!(
        key_message(Key::ArrowRight, true),
        Some(Message::Navigation(navigation::Message::NextScreen))
    ));
    assert!(matches!(
        key_message(Key::ArrowLeft, true),
        Some(Message::Navigation(navigation::Message::PrevScreen))
    ));
    assert!(key_message(Key::ArrowLeft, false).is_none());
    assert!(matches!(key_message(Key::Control, false), Some(Message::CtrlReleased)));
    assert!(key_message(Key::Other, true).is_none());
}

#[test]
fn slide_change_clears_simulation() {
    let mut app = App::new();
    let _ = app.update(Message::Chaos(chaos::Message::SpawnChaos));
    let _ = app.update(Message::Chaos(chaos::Message::PanicChaos));
    assert!(app.chaos().is_paused());
    let _ = app.update(Message::Navigation(navigation::Message::PrevScreen));
    assert!(app.chaos().is_paused());
    let _ = app.update(Message::Navigation(navigation::Message::NextScreen));
    assert!(!app.chaos().is_paused());
    assert!(app.chaos().circles().is_empty());
    assert!(app.needs_frames());
}

#[test]
fn spawn_timer_only_on_subscriptions_screen() {
    let mut app = App::new();
    assert!(!app.spawns_circles());
    while app.navigation().screen() != Screen::Subscriptions {
        let _ = app.update(Message::Navigation(navigation::Message::NextScreen));
    }
    assert!(app.spawns_circles());
    let _ = app.update(Message::Navigation(navigation::Message::NextScreen));
    assert!(!app.spawns_circles());
}

#[test]
fn app_routes_fetch_and_modifiers() {
    let mut app = App::new();
    let _ = app.update(Message::Poker(page_poker::Message::UrlChanged("x.org".to_string())));
    match app.update(Message::Poker(page_poker::Message::Action)) {
        Command::Fetch { url, secure, .. } => {
            assert_eq!(url, "x.org");
            assert!(!secure);
        }
        Command::Nothing => panic!("expected a fetch"),
    }
    let _ = app.update(Message::CtrlPressed);
    let _ = app.update(Message::ShiftPressed);
    assert!(app.ctrl_held() && app.shift_held());
    let _ = app.update(Message::CtrlReleased);
    assert!(!app.ctrl_held() && app.shift_held());
    let _ = app.update(Message::Quiz(quiz::Message::ValidationAnswer(0)));
    assert_eq!(app.quiz().validation_answer(), Some(0));
    let _ = app.update(Message::Demo(demo::Message::ButtonClicked));
    assert_eq!(app.demo().button_clicks(), 1);
    let _ = app.update(Message::Theming(theming::Message::ThemeChanged("Nord".to_string())));
    assert_eq!(app.theming().theme(), "Nord");
}

#[test]
fn frames_settle_after_navigation() {
    let mut app = App::new();
    assert!(!app.needs_frames());
    let _ = app.update(Message::Navigation(navigation::Message::NextScreen));
    assert!(app.needs_frames());
    let _ = app.update(Message::Navigation(navigation::Message::SlideOffset(300)));
    assert!(!app.needs_frames());
}
