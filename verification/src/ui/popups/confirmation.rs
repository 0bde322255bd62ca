//! The dialog that asks before something is done.

use crate::ui::popups::ConsumablePopup;
use vstd::prelude::*;

verus! {

/// A key pressed while a dialog is shown.
#[derive(Debug, Clone, Copy, PartialEq, Eq, Structural)]
pub enum PopupKey {
    Enter,
    Left,
    Right,
    /// Any other key.
    Other,
}

/// How a question was answered.
#[derive(Debug, Clone, Copy, PartialEq, Eq, Structural)]
pub enum PopupAnswer {
    /// Close the dialog and do nothing.
    Dismiss,
    /// Close the dialog and do what it holds.
    Confirm,
}

/// The button that is marked after a key: from the first button the left
/// key leads to the second, from the second the right key to the first,
/// and nothing else moves the mark.
pub open spec fn button_after(button: u8, key: PopupKey) -> u8 {
    if key == PopupKey::Left && button == 0 {
        1
    } else if key == PopupKey::Right && button == 1 {
        0
    } else {
        button
    }
}

/// The answer that a key gives: the enter key answers with the marked
/// button, the first dismissing and the second confirming; no other key
/// answers.
pub open spec fn answer_of(button: u8, key: PopupKey) -> Option<PopupAnswer> {
    if key == PopupKey::Enter && button == 0 {
        Some(PopupAnswer::Dismiss)
    } else if key == PopupKey::Enter && button == 1 {
        Some(PopupAnswer::Confirm)
    } else {
        None
    }
}

/// A question, and what is to be done when it is answered with yes.
pub struct ConfirmationPopup<T> {
    message: Option<Box<T>>,
    text: String,
    button_index: u8,
}

impl<T> ConfirmationPopup<T> {
    /// What is still to be handed out when the question is answered.
    pub closed spec fn held(&self) -> Option<T> {
        match self.message {
            Some(message) => Some(*message),
            None => None,
        }
    }

    /// The question.
    pub closed spec fn question(&self) -> Seq<char> {
        self.text@
    }

    /// The button that is marked: 0 for the first.
    pub closed spec fn button(&self) -> u8 {
        self.button_index
    }

    /// The dialog as it opens: it holds the message, shows the question
    /// and marks the first button.
    pub fn new(message: T, text: String) -> (popup: Self)
        ensures
            popup.held() == Some(message),
            popup.question() == text@,
            popup.button() == 0,
    {
        Self { message: Some(Box::new(message)), text, button_index: 0 }
    }

    /// Takes a key: it may move the mark or answer the question.
    pub fn handle_key(&mut self, key: PopupKey) -> (answer: Option<PopupAnswer>)
        ensures
            answer == answer_of(old(self).button(), key),
            final(self).button() == button_after(old(self).button(), key),
            final(self).held() == old(self).held(),
            final(self).question() == old(self).question(),
    {
        match key {
            PopupKey::Enter => {
                if self.button_index == 0 {
                    Some(PopupAnswer::Dismiss)
                } else if self.button_index == 1 {
                    Some(PopupAnswer::Confirm)
                } else {
                    None
                }
            },
            PopupKey::Left => {
                if self.button_index == 0 {
                    self.button_index = 1;
                }
                None
            },
            PopupKey::Right => {
                if self.button_index == 1 {
                    self.button_index = 0;
                }
                None
            },
            PopupKey::Other => None,
        }
    }

    /// Hands out the message, once: a second call gets nothing.
    pub fn consume(&mut self) -> (message: Option<T>)
        ensures
            message == old(self).held(),
            final(self).held() is None,
            final(self).question() == old(self).question(),
            final(self).button() == old(self).button(),
    {
        match self.message.take() {
            Some(message) => Some(*message),
            None => None,
        }
    }
}

impl<T> ConsumablePopup<T> for ConfirmationPopup<T> {
    fn consume(&mut self) -> (message: Option<T>)
        ensures
            message == old(self).held(),
            final(self).held() is None,
    {
        ConfirmationPopup::consume(self)
    }
}

} // verus!
