use vstd::prelude::*;

verus! {

/// Counters and settings behind the interactive widget slides.
pub struct Demo {
    button_clicks: u32,
    input_changes: u32,
    input_submits: u32,
    input_text: String,
    spacing: u32,
    padding: u32,
}

/// What the widgets report. Spacing and padding are in whole pixels.
#[derive(Clone, Debug)]
pub enum Message {
    ButtonClicked,
    InputChanged(String),
    InputSubmitted,
    SpacingChanged(u32),
    PaddingChanged(u32),
}

#[derive(Clone, Copy, Debug, PartialEq, Eq, Structural)]
pub enum Action {
    Nothing,
}

/// The abstract state of a `Demo`.
pub struct DemoView {
    pub button_clicks: u32,
    pub input_changes: u32,
    pub input_submits: u32,
    pub input_text: Seq<char>,
    pub spacing: u32,
    pub padding: u32,
}

impl View for Demo {
    type V = DemoView;

    closed spec fn view(&self) -> DemoView {
        DemoView {
            button_clicks: self.button_clicks,
            input_changes: self.input_changes,
            input_submits: self.input_submits,
            input_text: self.input_text@,
            spacing: self.spacing,
            padding: self.padding,
        }
    }
}

impl DemoView {
    /// The state after one message.
    pub open spec fn next(self, message: Message) -> DemoView {
        match message {
            Message::ButtonClicked => DemoView {
                button_clicks: (self.button_clicks + 1) as u32,
                ..self
            },
            Message::InputChanged(value) => DemoView {
                input_text: value@,
                input_changes: (self.input_changes + 1) as u32,
                ..self
            },
            Message::InputSubmitted => DemoView {
                input_submits: (self.input_submits + 1) as u32,
                ..self
            },
            Message::SpacingChanged(v) => DemoView { spacing: v, ..self },
            Message::PaddingChanged(v) => DemoView { padding: v, ..self },
        }
    }

    /// Whether the counter that `message` bumps has room left.
    pub open spec fn can_count(self, message: Message) -> bool {
        match message {
            Message::ButtonClicked => self.button_clicks < u32::MAX,
            Message::InputChanged(_) => self.input_changes < u32::MAX,
            Message::InputSubmitted => self.input_submits < u32::MAX,
            _ => true,
        }
    }
}

impl Demo {
    /// Zero counts, empty input, spacing and padding of 10 pixels.
    pub fn new() -> (r: Demo)
        ensures
            r@.button_clicks == 0,
            r@.input_changes == 0,
            r@.input_submits == 0,
            r@.input_text.len() == 0,
            r@.spacing == 10,
            r@.padding == 10,
    {
        Demo {
            button_clicks: 0,
            input_changes: 0,
            input_submits: 0,
            input_text: String::new(),
            spacing: 10,
            padding: 10,
        }
    }

    /// Counts clicks, edits and submissions, keeps the latest input text, and
    /// records the latest spacing and padding.
    pub fn update(&mut self, message: Message) -> (r: Action)
        requires
            old(self)@.can_count(message),
        ensures
            r == Action::Nothing,
            final(self)@ == old(self)@.next(message),
    {
        match message {
            Message::ButtonClicked => {
                self.button_clicks = self.button_clicks + 1;
            },
            Message::InputChanged(value) => {
                self.input_text = value;
                self.input_changes = self.input_changes + 1;
            },
            Message::InputSubmitted => {
                self.input_submits = self.input_submits + 1;
            },
            Message::SpacingChanged(val) => {
                self.spacing = val;
            },
            Message::PaddingChanged(val) => {
                self.padding = val;
            },
        }
        Action::Nothing
    }

    pub fn button_clicks(&self) -> (r: u32)
        ensures
            r == self@.button_clicks,
    {
        self.button_clicks
    }

    pub fn input_changes(&self) -> (r: u32)
        ensures
            r == self@.input_changes,
    {
        self.input_changes
    }

    pub fn input_submits(&self) -> (r: u32)
        ensures
            r == self@.input_submits,
    {
        self.input_submits
    }

    pub fn input_text(&self) -> (r: &str)
        ensures
            r@ == self@.input_text,
    {
        self.input_text.as_str()
    }

    pub fn spacing(&self) -> (r: u32)
        ensures
            r == self@.spacing,
    {
        self.spacing
    }

    pub fn padding(&self) -> (r: u32)
        ensures
            r == self@.padding,
    {
        self.padding
    }
}

} // verus!
