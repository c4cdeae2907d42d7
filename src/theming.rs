use vstd::prelude::*;

use crate::chaos::Rgba;

verus! {

/// The colour that buttons take under the cursor, the colour picker, and
/// the name of the chosen theme.
pub struct Theming {
    hover_color: Rgba,
    show_color_picker: bool,
    theme: String,
}

#[derive(Clone, Debug)]
pub enum Message {
    OpenColorPicker,
    SubmitColor(Rgba),
    CancelColorPicker,
    /// A theme picked by its name.
    ThemeChanged(String),
}

#[derive(Clone, Copy, Debug, PartialEq, Eq, Structural)]
pub enum Action {
    Nothing,
    /// The theme changed: the host should restyle.
    ThemeChanged,
}

/// The abstract state of a `Theming`.
pub struct ThemingView {
    pub hover_color: Rgba,
    pub show_color_picker: bool,
    pub theme: Seq<char>,
}

impl View for Theming {
    type V = ThemingView;

    closed spec fn view(&self) -> ThemingView {
        ThemingView {
            hover_color: self.hover_color,
            show_color_picker: self.show_color_picker,
            theme: self.theme@,
        }
    }
}

impl Theming {
    /// Light blue hover colour, picker closed, the "Gruvbox Light" theme.
    pub fn new() -> (r: Theming)
        ensures
            r@.hover_color == (Rgba { r: 77, g: 179, b: 255, a: 255 }),
            !r@.show_color_picker,
            r@.theme == "Gruvbox Light"@,
    {
        Theming {
            hover_color: Rgba { r: 77, g: 179, b: 255, a: 255 },
            show_color_picker: false,
            theme: String::from_str("Gruvbox Light"),
        }
    }

    /// Opens or closes the picker, takes a submitted colour, or switches theme.
    pub fn update(&mut self, message: Message) -> (r: Action)
        ensures
            match message {
                Message::OpenColorPicker => {
                    &&& final(self)@ == (ThemingView { show_color_picker: true, ..old(self)@ })
                    &&& r == Action::Nothing
                },
                Message::SubmitColor(c) => {
                    &&& final(self)@ == (ThemingView {
                        hover_color: c,
                        show_color_picker: false,
                        ..old(self)@
                    })
                    &&& r == Action::Nothing
                },
                Message::CancelColorPicker => {
                    &&& final(self)@ == (ThemingView { show_color_picker: false, ..old(self)@ })
                    &&& r == Action::Nothing
                },
                Message::ThemeChanged(name) => {
                    &&& final(self)@ == (ThemingView { theme: name@, ..old(self)@ })
                    &&& r == Action::ThemeChanged
                },
            },
    {
        match message {
            Message::OpenColorPicker => {
                self.show_color_picker = true;
                Action::Nothing
            },
            Message::SubmitColor(color) => {
                self.hover_color = color;
                self.show_color_picker = false;
                Action::Nothing
            },
            Message::CancelColorPicker => {
                self.show_color_picker = false;
                Action::Nothing
            },
            Message::ThemeChanged(theme) => {
                self.theme = theme;
                Action::ThemeChanged
            },
        }
    }

    pub fn hover_color(&self) -> (r: Rgba)
        ensures
            r == self@.hover_color,
    {
        self.hover_color
    }

    pub fn show_color_picker(&self) -> (r: bool)
        ensures
            r == self@.show_color_picker,
    {
        self.show_color_picker
    }

    /// The name of the chosen theme.
    pub fn theme(&self) -> (r: &str)
        ensures
            r@ == self@.theme,
    {
        self.theme.as_str()
    }
}

} // verus!
