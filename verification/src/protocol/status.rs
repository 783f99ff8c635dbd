//! The status message shown in the status line.
use vstd::prelude::*;
use vstd::string::*;

verus! {

/// A status message: nothing, or a line of text.
#[derive(Debug, PartialEq)]
pub enum StatusMessage {
    Empty,
    Text { text: String },
}

impl View for StatusMessage {
    type V = Option<Seq<char>>;

    open spec fn view(&self) -> Option<Seq<char>> {
        match self {
            StatusMessage::Empty => None,
            StatusMessage::Text { text } => Some(text@),
        }
    }
}

impl Clone for StatusMessage {
    fn clone(&self) -> (r: Self)
        ensures
            r == *self,
    {
        match self {
            StatusMessage::Empty => StatusMessage::Empty,
            StatusMessage::Text { text } => StatusMessage::Text { text: text.clone() },
        }
    }
}

/// The characters a message contributes to a plain text.
pub open spec fn message_text(m: Option<Seq<char>>) -> Seq<char> {
    match m {
        None => Seq::empty(),
        Some(t) => t,
    }
}

/// The characters a message contributes to the status line: ` > ` and the text.
pub open spec fn status_line_text(m: Option<Seq<char>>) -> Seq<char> {
    match m {
        None => Seq::empty(),
        Some(t) => " > "@ + t,
    }
}

impl StatusMessage {
    /// A text message.
    pub fn text(text: &str) -> (r: Self)
        ensures
            r@ == Some(text@),
    {
        StatusMessage::Text { text: String::from_str(text) }
    }

    /// Appends the message text to `target`.
    pub fn append_to(&self, target: &mut String)
        ensures
            final(target)@ == old(target)@ + message_text(self@),
    {
        match self {
            StatusMessage::Empty => {
                assert(target@ =~= old(target)@ + message_text(self@));
            },
            StatusMessage::Text { text } => target.append(text.as_str()),
        }
    }

    /// Appends ` > ` and the message text to `target`; nothing for an empty message.
    pub fn append_to_status_line(&self, target: &mut String)
        ensures
            final(target)@ == old(target)@ + status_line_text(self@),
    {
        match self {
            StatusMessage::Empty => {
                assert(target@ =~= old(target)@ + status_line_text(self@));
            },
            StatusMessage::Text { text } => {
                target.append(" > ");
                target.append(text.as_str());
                assert(target@ =~= old(target)@ + status_line_text(self@));
            },
        }
    }

    /// This message, or `fallback` when this one is empty.
    pub fn or(self, fallback: StatusMessage) -> (r: StatusMessage)
        ensures
            r == (match self {
                StatusMessage::Empty => fallback,
                StatusMessage::Text { .. } => self,
            }),
    {
        match self {
            StatusMessage::Empty => fallback,
            StatusMessage::Text { .. } => self,
        }
    }

    /// Replaces the message.
    pub fn store(&mut self, message: StatusMessage)
        ensures
            *final(self) == message,
    {
        *self = message;
    }

    /// Empties the message.
    pub fn clear(&mut self)
        ensures
            *final(self) == StatusMessage::Empty,
    {
        *self = StatusMessage::Empty;
    }
}

} // verus!
