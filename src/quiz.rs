use vstd::prelude::*;

verus! {

/// The option picked in each quiz, if any.
#[derive(Clone, Copy, Debug, PartialEq, Eq, Structural)]
pub struct Quiz {
    answer: Option<u8>,
    http_answer: Option<u8>,
    button_answer: Option<u8>,
    validation_answer: Option<u8>,
}

/// An option picked in one of the quizzes.
#[derive(Clone, Copy, Debug, PartialEq, Eq, Structural)]
pub enum Message {
    Answer(u8),
    HttpAnswer(u8),
    ButtonAnswer(u8),
    ValidationAnswer(u8),
}

#[derive(Clone, Copy, Debug, PartialEq, Eq, Structural)]
pub enum Action {
    Nothing,
}

impl Quiz {
    /// No quiz answered yet.
    pub fn new() -> (r: Quiz)
        ensures
            r.spec_answer() is None,
            r.spec_http_answer() is None,
            r.spec_button_answer() is None,
            r.spec_validation_answer() is None,
    {
        Quiz { answer: None, http_answer: None, button_answer: None, validation_answer: None }
    }

    pub closed spec fn spec_answer(self) -> Option<u8> {
        self.answer
    }

    pub closed spec fn spec_http_answer(self) -> Option<u8> {
        self.http_answer
    }

    pub closed spec fn spec_button_answer(self) -> Option<u8> {
        self.button_answer
    }

    pub closed spec fn spec_validation_answer(self) -> Option<u8> {
        self.validation_answer
    }

    /// Records the picked option of one quiz; a later pick replaces an
    /// earlier one, and the other quizzes keep theirs.
    pub fn update(&mut self, message: Message) -> (r: Action)
        ensures
            r == Action::Nothing,
            final(self).spec_answer() == match message {
                Message::Answer(a) => Some(a),
                _ => old(self).spec_answer(),
            },
            final(self).spec_http_answer() == match message {
                Message::HttpAnswer(a) => Some(a),
                _ => old(self).spec_http_answer(),
            },
            final(self).spec_button_answer() == match message {
                Message::ButtonAnswer(a) => Some(a),
                _ => old(self).spec_button_answer(),
            },
            final(self).spec_validation_answer() == match message {
                Message::ValidationAnswer(a) => Some(a),
                _ => old(self).spec_validation_answer(),
            },
    {
        match message {
            Message::Answer(a) => self.answer = Some(a),
            Message::HttpAnswer(a) => self.http_answer = Some(a),
            Message::ButtonAnswer(a) => self.button_answer = Some(a),
            Message::ValidationAnswer(a) => self.validation_answer = Some(a),
        }
        Action::Nothing
    }

    pub fn answer(&self) -> (r: Option<u8>)
        ensures
            r == self.spec_answer(),
    {
        self.answer
    }

    pub fn http_answer(&self) -> (r: Option<u8>)
        ensures
            r == self.spec_http_answer(),
    {
        self.http_answer
    }

    pub fn button_answer(&self) -> (r: Option<u8>)
        ensures
            r == self.spec_button_answer(),
    {
        self.button_answer
    }

    pub fn validation_answer(&self) -> (r: Option<u8>)
        ensures
            r == self.spec_validation_answer(),
    {
        self.validation_answer
    }
}

} // verus!
