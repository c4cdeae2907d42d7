use vstd::prelude::*;

use crate::chaos::{self, spawn_fits, Chaos, ChaosView};
use crate::demo::{self, Demo, DemoView};
use crate::navigation::{self, Navigation, NavigationView};
use crate::page_poker::{self, Mode, PagePoker, PagePokerView};
use crate::quiz::{self, Quiz};
use crate::screen::Screen;
use crate::theming::{self, Theming, ThemingView};

verus! {

/// Keys the tutorial reacts to.
#[derive(Clone, Copy, Debug, PartialEq, Eq, Structural)]
pub enum Key {
    Control,
    Shift,
    ArrowLeft,
    ArrowRight,
    Other,
}

/// Every event the tutorial handles, routed to the part it belongs to.
#[derive(Clone, Debug)]
pub enum Message {
    Navigation(navigation::Message),
    Chaos(chaos::Message),
    Poker(page_poker::Message),
    Demo(demo::Message),
    Quiz(quiz::Message),
    Theming(theming::Message),
    CtrlPressed,
    CtrlReleased,
    ShiftPressed,
    ShiftReleased,
}

/// Work for the host after an update.
#[derive(Clone, Debug)]
pub enum Command {
    Nothing,
    /// Fetch the page and send back `page_poker::Message::Result`.
    Fetch { url: String, secure: bool, mode: Mode },
}

/// The whole state of the tutorial.
pub struct App {
    navigation: Navigation,
    chaos: Chaos,
    poker: PagePoker,
    demo: Demo,
    quiz: Quiz,
    theming: Theming,
    ctrl_held: bool,
    shift_held: bool,
}

/// The message a key press or release stands for, if any: the arrows move
/// between screens, the modifiers are tracked.
pub open spec fn spec_key_message(key: Key, pressed: bool) -> Option<Message> {
    match (key, pressed) {
        (Key::Control, true) => Some(Message::CtrlPressed),
        (Key::Control, false) => Some(Message::CtrlReleased),
        (Key::Shift, true) => Some(Message::ShiftPressed),
        (Key::Shift, false) => Some(Message::ShiftReleased),
        (Key::ArrowLeft, true) => Some(Message::Navigation(navigation::Message::PrevScreen)),
        (Key::ArrowRight, true) => Some(Message::Navigation(navigation::Message::NextScreen)),
        _ => None,
    }
}

/// The message a key press or release stands for, if any.
pub fn key_message(key: Key, pressed: bool) -> (r: Option<Message>)
    ensures
        r == spec_key_message(key, pressed),
{
    match (key, pressed) {
        (Key::Control, true) => Some(Message::CtrlPressed),
        (Key::Control, false) => Some(Message::CtrlReleased),
        (Key::Shift, true) => Some(Message::ShiftPressed),
        (Key::Shift, false) => Some(Message::ShiftReleased),
        (Key::ArrowLeft, true) => Some(Message::Navigation(navigation::Message::PrevScreen)),
        (Key::ArrowRight, true) => Some(Message::Navigation(navigation::Message::NextScreen)),
        _ => None,
    }
}

impl App {
    pub closed spec fn nav(self) -> NavigationView {
        self.navigation@
    }

    pub closed spec fn sim(self) -> ChaosView {
        self.chaos@
    }

    pub closed spec fn page(self) -> PagePokerView {
        self.poker@
    }

    pub closed spec fn widgets(self) -> DemoView {
        self.demo@
    }

    pub closed spec fn quizzes(self) -> Quiz {
        self.quiz
    }

    pub closed spec fn look(self) -> ThemingView {
        self.theming@
    }

    pub closed spec fn ctrl(self) -> bool {
        self.ctrl_held
    }

    pub closed spec fn shift(self) -> bool {
        self.shift_held
    }

    pub open spec fn wf(self) -> bool {
        self.nav().wf() && self.sim().wf()
    }

    /// Whether the message can be handled in this state: a spawn needs a
    /// window that any new circle fits in, and counters must have room.
    pub open spec fn accepts(self, message: Message) -> bool {
        match message {
            Message::Chaos(m) => m == chaos::Message::SpawnChaos && !self.sim().paused
                ==> spawn_fits(self.sim().width, self.sim().height),
            Message::Demo(m) => self.widgets().can_count(m),
            _ => true,
        }
    }

    /// The tutorial at its first screen with every part fresh.
    pub fn new() -> (r: App)
        ensures
            r.wf(),
            r.nav().screen.ordinal() == 0,
            !r.nav().is_animating(),
            r.sim().circles.len() == 0,
            !r.sim().paused,
            !r.ctrl(),
            !r.shift(),
    {
        App {
            navigation: Navigation::new(),
            chaos: Chaos::new(),
            poker: PagePoker::new(),
            demo: Demo::new(),
            quiz: Quiz::new(),
            theming: Theming::new(),
            ctrl_held: false,
            shift_held: false,
        }
    }

    /// Routes the message to its part. When the screen changes, the
    /// simulation is cleared and resumed, so that it starts afresh.
    pub fn update(&mut self, message: Message) -> (r: Command)
        requires
            old(self).wf(),
            old(self).accepts(message),
        ensures
            final(self).wf(),
            match message {
                Message::Navigation(m) => {
                    &&& final(self).nav() == old(self).nav().next(m)
                    &&& final(self).sim() == if old(self).nav().action(m)
                        == navigation::Action::SlideChanged {
                        old(self).sim().cleared_and_unpaused()
                    } else {
                        old(self).sim()
                    }
                    &&& r is Nothing
                },
                Message::Chaos(m) => {
                    &&& final(self).nav() == old(self).nav()
                    &&& final(self).sim().wf()
                    &&& m == chaos::Message::PanicChaos ==> final(self).sim()
                        == old(self).sim().cleared_and_paused()
                    &&& m == chaos::Message::Tick ==> final(self).sim() == old(self).sim().ticked()
                    &&& m matches chaos::Message::WindowResized(w, h) ==> final(self).sim()
                        == old(self).sim().resized(w, h)
                    &&& m == chaos::Message::SpawnChaos && old(self).sim().paused ==> final(self).sim() == old(self).sim()
                    &&& m == chaos::Message::SpawnChaos && !old(self).sim().paused ==> final(self).sim().circles.len() == old(self).sim().circles.len() + 1
                    &&& r is Nothing
                },
                Message::Poker(m) => {
                    &&& final(self).page() == old(self).page().next(m)
                    &&& r is Fetch <==> old(self).page().fetches(m)
                    &&& r matches Command::Fetch { url, secure, mode } ==> url@ == old(self).page().url && secure == old(self).page().secure && mode == old(self).page().mode
                },
                Message::Demo(m) => {
                    &&& final(self).widgets() == old(self).widgets().next(m)
                    &&& r is Nothing
                },
                Message::Quiz(m) => {
                    &&& final(self).quizzes().spec_answer() == match m {
                        quiz::Message::Answer(a) => Some(a),
                        _ => old(self).quizzes().spec_answer(),
                    }
                    &&& final(self).quizzes().spec_http_answer() == match m {
                        quiz::Message::HttpAnswer(a) => Some(a),
                        _ => old(self).quizzes().spec_http_answer(),
                    }
                    &&& final(self).quizzes().spec_button_answer() == match m {
                        quiz::Message::ButtonAnswer(a) => Some(a),
                        _ => old(self).quizzes().spec_button_answer(),
                    }
                    &&& final(self).quizzes().spec_validation_answer() == match m {
                        quiz::Message::ValidationAnswer(a) => Some(a),
                        _ => old(self).quizzes().spec_validation_answer(),
                    }
                    &&& r is Nothing
                },
                Message::Theming(m) => {
                    &&& match m {
                        theming::Message::OpenColorPicker => final(self).look() == (ThemingView {
                            show_color_picker: true,
                            ..old(self).look()
                        }),
                        theming::Message::SubmitColor(c) => final(self).look() == (ThemingView {
                            hover_color: c,
                            show_color_picker: false,
                            ..old(self).look()
                        }),
                        theming::Message::CancelColorPicker => final(self).look() == (
                        ThemingView { show_color_picker: false, ..old(self).look() }),
                        theming::Message::ThemeChanged(name) => final(self).look() == (
                        ThemingView { theme: name@, ..old(self).look() }),
                    }
                    &&& r is Nothing
                },
                Message::CtrlPressed => final(self).ctrl() && final(self).shift() == old(self).shift() && r is Nothing,
                Message::CtrlReleased => !final(self).ctrl() && final(self).shift() == old(self).shift() && r is Nothing,
                Message::ShiftPressed => final(self).shift() && final(self).ctrl() == old(self).ctrl() && r is Nothing,
                Message::ShiftReleased => !final(self).shift() && final(self).ctrl() == old(self).ctrl() && r is Nothing,
            },
    {
        match message {
            Message::Navigation(m) => {
                match self.navigation.update(m) {
                    navigation::Action::SlideChanged => self.chaos.clear_and_unpause(),
                    navigation::Action::Nothing => {},
                }
                Command::Nothing
            },
            Message::Chaos(m) => {
                let _ = self.chaos.update(m);
                Command::Nothing
            },
            Message::Poker(m) => match self.poker.update(m) {
                page_poker::Command::Nothing => Command::Nothing,
                page_poker::Command::Fetch { url, secure, mode } => Command::Fetch {
                    url,
                    secure,
                    mode,
                },
            },
            Message::Demo(m) => {
                let _ = self.demo.update(m);
                Command::Nothing
            },
            Message::Quiz(m) => {
                let _ = self.quiz.update(m);
                Command::Nothing
            },
            Message::Theming(m) => {
                let _ = self.theming.update(m);
                Command::Nothing
            },
            Message::CtrlPressed => {
                self.ctrl_held = true;
                Command::Nothing
            },
            Message::CtrlReleased => {
                self.ctrl_held = false;
                Command::Nothing
            },
            Message::ShiftPressed => {
                self.shift_held = true;
                Command::Nothing
            },
            Message::ShiftReleased => {
                self.shift_held = false;
                Command::Nothing
            },
        }
    }

    /// Whether new circles should be spawned on a timer: only while the
    /// subscriptions screen shows.
    pub fn spawns_circles(&self) -> (r: bool)
        ensures
            r <==> self.nav().screen == Screen::Subscriptions,
    {
        self.navigation.screen() == Screen::Subscriptions
    }

    /// Whether animation frames are needed: while the slide moves in, or
    /// while circles are on screen.
    pub fn needs_frames(&self) -> (r: bool)
        requires
            self.wf(),
        ensures
            r <==> self.nav().is_animating() || self.sim().circles.len() > 0,
    {
        self.navigation.is_animating() || self.chaos.circles().len() > 0
    }

    pub fn navigation(&self) -> (r: &Navigation)
        ensures
            r@ == self.nav(),
    {
        &self.navigation
    }

    pub fn chaos(&self) -> (r: &Chaos)
        ensures
            r@ == self.sim(),
    {
        &self.chaos
    }

    pub fn poker(&self) -> (r: &PagePoker)
        ensures
            r@ == self.page(),
    {
        &self.poker
    }

    pub fn demo(&self) -> (r: &Demo)
        ensures
            r@ == self.widgets(),
    {
        &self.demo
    }

    pub fn quiz(&self) -> (r: &Quiz)
        ensures
            *r == self.quizzes(),
    {
        &self.quiz
    }

    pub fn theming(&self) -> (r: &Theming)
        ensures
            r@ == self.look(),
    {
        &self.theming
    }

    pub fn ctrl_held(&self) -> (r: bool)
        ensures
            r == self.ctrl(),
    {
        self.ctrl_held
    }

    pub fn shift_held(&self) -> (r: bool)
        ensures
            r == self.shift(),
    {
        self.shift_held
    }
}

} // verus!
