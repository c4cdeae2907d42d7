use vstd::prelude::*;

verus! {

/// Number of screens in the tutorial.
pub const SCREEN_COUNT: usize = 24;

/// Position of the last screen.
pub const LAST_INDEX: usize = 23;

/// The screens of the tutorial, in the order in which they are shown.
#[derive(Clone, Copy, Debug, PartialEq, Eq, Structural)]
pub enum Screen {
    Title,
    Intro,
    Model,
    View,
    LayoutRowCol,
    LayoutContainer,
    LayoutSpacing,
    Button,
    TextInput,
    Theming,
    ThemePicker,
    Message,
    Constructors,
    Update,
    Tasks,
    Subscriptions,
    Interactive,
    CommunityWidgets,
    Quiz,
    QuizHttp,
    QuizButton,
    QuizValidation,
    Takeaways,
    Recap,
}

impl Screen {
    /// Position of the screen in the tutorial, starting at zero.
    pub open spec fn ordinal(self) -> nat {
        match self {
            Screen::Title => 0,
            Screen::Intro => 1,
            Screen::Model => 2,
            Screen::View => 3,
            Screen::LayoutRowCol => 4,
            Screen::LayoutContainer => 5,
            Screen::LayoutSpacing => 6,
            Screen::Button => 7,
            Screen::TextInput => 8,
            Screen::Theming => 9,
            Screen::ThemePicker => 10,
            Screen::Message => 11,
            Screen::Constructors => 12,
            Screen::Update => 13,
            Screen::Tasks => 14,
            Screen::Subscriptions => 15,
            Screen::Interactive => 16,
            Screen::CommunityWidgets => 17,
            Screen::Quiz => 18,
            Screen::QuizHttp => 19,
            Screen::QuizButton => 20,
            Screen::QuizValidation => 21,
            Screen::Takeaways => 22,
            Screen::Recap => 23,
        }
    }

    /// The screen at a position, if the position is in range.
    pub open spec fn at(i: int) -> Option<Screen> {
        if i == 0 {
            Some(Screen::Title)
        } else if i == 1 {
            Some(Screen::Intro)
        } else if i == 2 {
            Some(Screen::Model)
        } else if i == 3 {
            Some(Screen::View)
        } else if i == 4 {
            Some(Screen::LayoutRowCol)
        } else if i == 5 {
            Some(Screen::LayoutContainer)
        } else if i == 6 {
            Some(Screen::LayoutSpacing)
        } else if i == 7 {
            Some(Screen::Button)
        } else if i == 8 {
            Some(Screen::TextInput)
        } else if i == 9 {
            Some(Screen::Theming)
        } else if i == 10 {
            Some(Screen::ThemePicker)
        } else if i == 11 {
            Some(Screen::Message)
        } else if i == 12 {
            Some(Screen::Constructors)
        } else if i == 13 {
            Some(Screen::Update)
        } else if i == 14 {
            Some(Screen::Tasks)
        } else if i == 15 {
            Some(Screen::Subscriptions)
        } else if i == 16 {
            Some(Screen::Interactive)
        } else if i == 17 {
            Some(Screen::CommunityWidgets)
        } else if i == 18 {
            Some(Screen::Quiz)
        } else if i == 19 {
            Some(Screen::QuizHttp)
        } else if i == 20 {
            Some(Screen::QuizButton)
        } else if i == 21 {
            Some(Screen::QuizValidation)
        } else if i == 22 {
            Some(Screen::Takeaways)
        } else if i == 23 {
            Some(Screen::Recap)
        } else {
            None
        }
    }

    /// The title shown above the screen.
    pub open spec fn spec_label(self) -> Seq<char> {
        match self {
            Screen::Title => ""@,
            Screen::Intro => "0. The Elm Architecture"@,
            Screen::Model => "1. Model"@,
            Screen::View => "2. View"@,
            Screen::LayoutRowCol => "3. Layout: Rows & Columns"@,
            Screen::LayoutContainer => "4. Layout: Container"@,
            Screen::LayoutSpacing => "5. Layout: Spacing & Alignment"@,
            Screen::Button => "6. Widget: Button"@,
            Screen::TextInput => "7. Widget: Text Input"@,
            Screen::Theming => "8. Styling Widgets"@,
            Screen::ThemePicker => "9. Theming"@,
            Screen::Message => "10. Message"@,
            Screen::Constructors => "11. Variants as Constructors"@,
            Screen::Update => "12. Update"@,
            Screen::Tasks => "13. Tasks"@,
            Screen::Subscriptions => "14. Subscriptions"@,
            Screen::Interactive => "15. Page Boop"@,
            Screen::CommunityWidgets => "16. Community Widgets"@,
            Screen::Quiz => "17. Quiz: Where Does Logic Live?"@,
            Screen::QuizHttp => "18. Quiz: Async Operations"@,
            Screen::QuizButton => "19. Quiz: Conditional UI"@,
            Screen::QuizValidation => "20. Quiz: Validation Flow"@,
            Screen::Takeaways => "21. Key Takeaways"@,
            Screen::Recap => "22. Recap"@,
        }
    }

    /// The screen one step further, or the same screen at the end.
    pub open spec fn spec_forward(self) -> Screen {
        if self.ordinal() < LAST_INDEX {
            Screen::at(self.ordinal() + 1int)->0
        } else {
            self
        }
    }

    /// The screen one step back, or the same screen at the start.
    pub open spec fn spec_backward(self) -> Screen {
        if self.ordinal() > 0 {
            Screen::at(self.ordinal() - 1int)->0
        } else {
            self
        }
    }

    /// Each position below the count names exactly one screen.
    pub proof fn lemma_at_ordinal(s: Screen)
        ensures
            s.ordinal() < SCREEN_COUNT,
            Screen::at(s.ordinal() as int) == Some(s),
    {
    }

    /// Positions in range give a screen with that position.
    pub proof fn lemma_ordinal_at(i: int)
        requires
            0 <= i < SCREEN_COUNT,
        ensures
            Screen::at(i) is Some,
            Screen::at(i)->0.ordinal() == i,
    {
    }

    /// The first screen, shown at start-up.
    pub fn first() -> (r: Screen)
        ensures
            r.ordinal() == 0,
    {
        Screen::Title
    }

    /// Position of the screen, starting at zero.
    pub fn index(&self) -> (r: usize)
        ensures
            r == self.ordinal(),
    {
        match self {
            Screen::Title => 0,
            Screen::Intro => 1,
            Screen::Model => 2,
            Screen::View => 3,
            Screen::LayoutRowCol => 4,
            Screen::LayoutContainer => 5,
            Screen::LayoutSpacing => 6,
            Screen::Button => 7,
            Screen::TextInput => 8,
            Screen::Theming => 9,
            Screen::ThemePicker => 10,
            Screen::Message => 11,
            Screen::Constructors => 12,
            Screen::Update => 13,
            Screen::Tasks => 14,
            Screen::Subscriptions => 15,
            Screen::Interactive => 16,
            Screen::CommunityWidgets => 17,
            Screen::Quiz => 18,
            Screen::QuizHttp => 19,
            Screen::QuizButton => 20,
            Screen::QuizValidation => 21,
            Screen::Takeaways => 22,
            Screen::Recap => 23,
        }
    }

    /// The screen at position `i`, or `None` past the last one.
    pub fn from_index(i: usize) -> (r: Option<Screen>)
        ensures
            r == Screen::at(i as int),
            r is Some <==> i < SCREEN_COUNT,
            r matches Some(s) ==> s.ordinal() == i,
    {
        match i {
            0 => Some(Screen::Title),
            1 => Some(Screen::Intro),
            2 => Some(Screen::Model),
            3 => Some(Screen::View),
            4 => Some(Screen::LayoutRowCol),
            5 => Some(Screen::LayoutContainer),
            6 => Some(Screen::LayoutSpacing),
            7 => Some(Screen::Button),
            8 => Some(Screen::TextInput),
            9 => Some(Screen::Theming),
            10 => Some(Screen::ThemePicker),
            11 => Some(Screen::Message),
            12 => Some(Screen::Constructors),
            13 => Some(Screen::Update),
            14 => Some(Screen::Tasks),
            15 => Some(Screen::Subscriptions),
            16 => Some(Screen::Interactive),
            17 => Some(Screen::CommunityWidgets),
            18 => Some(Screen::Quiz),
            19 => Some(Screen::QuizHttp),
            20 => Some(Screen::QuizButton),
            21 => Some(Screen::QuizValidation),
            22 => Some(Screen::Takeaways),
            23 => Some(Screen::Recap),
            _ => None,
        }
    }

    /// Whether this is the first screen.
    pub fn is_first(&self) -> (r: bool)
        ensures
            r <==> self.ordinal() == 0,
    {
        self.index() == 0
    }

    /// Whether this is the last screen.
    pub fn is_last(&self) -> (r: bool)
        ensures
            r <==> self.ordinal() == LAST_INDEX,
    {
        self.index() == LAST_INDEX
    }

    /// Moves one screen on; stays put on the last screen.
    pub fn forward(&mut self)
        ensures
            *final(self) == old(self).spec_forward(),
            final(self).ordinal() == if old(self).ordinal() < LAST_INDEX {
                old(self).ordinal() + 1int
            } else {
                old(self).ordinal() as int
            },
    {
        let i = self.index();
        if i < LAST_INDEX {
            proof {
                Screen::lemma_ordinal_at(i + 1);
            }
            match Screen::from_index(i + 1) {
                Some(s) => *self = s,
                None => {},
            }
        }
    }

    /// Moves one screen back; stays put on the first screen.
    pub fn backward(&mut self)
        ensures
            *final(self) == old(self).spec_backward(),
            final(self).ordinal() == if old(self).ordinal() > 0 {
                old(self).ordinal() - 1int
            } else {
                old(self).ordinal() as int
            },
    {
        let i = self.index();
        if i > 0 {
            proof {
                Screen::lemma_ordinal_at(i - 1);
            }
            match Screen::from_index(i - 1) {
                Some(s) => *self = s,
                None => {},
            }
        }
    }

    /// The title shown above the screen (empty on the title screen).
    pub fn label(&self) -> (r: &'static str)
        ensures
            r@ == self.spec_label(),
    {
        match self {
            Screen::Title => "",
            Screen::Intro => "0. The Elm Architecture",
            Screen::Model => "1. Model",
            Screen::View => "2. View",
            Screen::LayoutRowCol => "3. Layout: Rows & Columns",
            Screen::LayoutContainer => "4. Layout: Container",
            Screen::LayoutSpacing => "5. Layout: Spacing & Alignment",
            Screen::Button => "6. Widget: Button",
            Screen::TextInput => "7. Widget: Text Input",
            Screen::Theming => "8. Styling Widgets",
            Screen::ThemePicker => "9. Theming",
            Screen::Message => "10. Message",
            Screen::Constructors => "11. Variants as Constructors",
            Screen::Update => "12. Update",
            Screen::Tasks => "13. Tasks",
            Screen::Subscriptions => "14. Subscriptions",
            Screen::Interactive => "15. Page Boop",
            Screen::CommunityWidgets => "16. Community Widgets",
            Screen::Quiz => "17. Quiz: Where Does Logic Live?",
            Screen::QuizHttp => "18. Quiz: Async Operations",
            Screen::QuizButton => "19. Quiz: Conditional UI",
            Screen::QuizValidation => "20. Quiz: Validation Flow",
            Screen::Takeaways => "21. Key Takeaways",
            Screen::Recap => "22. Recap",
        }
    }
}

} // verus!
