//! The chat history behind a terminal front end: what it holds, and what
//! each entry looks like on screen. Drawing itself is the front end's.

use vstd::prelude::*;
use vstd::string::*;
use crate::command::starts_with;

verus! {

/// The sender name under which the user's own messages are recorded.
pub const OWN_SENDER: &'static str = "You";

/// Stands between the sender and the content on a history line.
pub const LINE_SEPARATOR: &'static str = ": ";

/// One entry of the chat history.
pub struct ChatMessage {
    pub sender: String,
    pub content: String,
}

/// What a chat screen shows: the history so far, and the line being typed.
pub struct ChatState {
    pub messages: Vec<ChatMessage>,
    pub input: String,
    pub cursor_position: usize,
}

/// The colour a history line is drawn in.
#[derive(Clone, Copy, Debug, PartialEq, Eq)]
pub enum LineColor {
    /// The user's own messages.
    Green,
    /// Everyone else's.
    Blue,
}

/// One line of the history, ready to draw.
pub struct HistoryLine {
    pub text: String,
    pub color: LineColor,
}

/// The text of a history line.
pub open spec fn line_text_spec(sender: Seq<char>, content: Seq<char>) -> Seq<char> {
    sender + LINE_SEPARATOR@ + content
}

/// The colour of a history line.
pub open spec fn line_color_spec(sender: Seq<char>) -> LineColor {
    if sender == OWN_SENDER@ {
        LineColor::Green
    } else {
        LineColor::Blue
    }
}

impl ChatMessage {
    /// The message as a pair of sender and content.
    pub open spec fn view(&self) -> (Seq<char>, Seq<char>) {
        (self.sender@, self.content@)
    }

    /// Whether the user wrote this message.
    pub fn is_own(&self) -> (own: bool)
        ensures
            own == (self.sender@ == OWN_SENDER@),
    {
        let sender = self.sender.as_str();
        let own = sender.unicode_len() == OWN_SENDER.unicode_len() && starts_with(
            sender,
            OWN_SENDER,
        );
        proof {
            if own {
                assert(self.sender@ =~= OWN_SENDER@);
            }
        }
        own
    }

    /// The line this message is drawn as.
    pub fn line(&self) -> (line: HistoryLine)
        ensures
            line.text@ == line_text_spec(self.sender@, self.content@),
            line.color == line_color_spec(self.sender@),
    {
        let text = self.sender.clone().concat(LINE_SEPARATOR).concat(self.content.as_str());
        let color = if self.is_own() {
            LineColor::Green
        } else {
            LineColor::Blue
        };
        HistoryLine { text, color }
    }
}

impl ChatState {
    /// The history as a sequence of sender and content pairs, oldest first.
    pub open spec fn history(&self) -> Seq<(Seq<char>, Seq<char>)> {
        Seq::new(self.messages@.len(), |i: int| self.messages@[i].view())
    }

    /// An empty screen: no history, nothing typed.
    pub fn new() -> (state: ChatState)
        ensures
            state.history() == Seq::<(Seq<char>, Seq<char>)>::empty(),
            state.input@ == Seq::<char>::empty(),
            state.cursor_position == 0,
    {
        let state = ChatState { messages: Vec::new(), input: String::new(), cursor_position: 0 };
        assert(state.history() =~= Seq::<(Seq<char>, Seq<char>)>::empty());
        state
    }

    /// Records a message at the end of the history and touches nothing else.
    pub fn add_message(&mut self, sender: String, content: String)
        ensures
            final(self).history() == old(self).history().push((sender@, content@)),
            final(self).input == old(self).input,
            final(self).cursor_position == old(self).cursor_position,
    {
        self.messages.push(ChatMessage { sender, content });
        assert(self.history() =~= old(self).history().push((sender@, content@)));
    }

    /// The history as the lines to draw, oldest first.
    pub fn lines(&self) -> (lines: Vec<HistoryLine>)
        ensures
            lines@.len() == self.history().len(),
            forall|i: int|
                0 <= i < lines@.len() ==> (#[trigger] lines@[i]).text@ == line_text_spec(
                    self.history()[i].0,
                    self.history()[i].1,
                ) && lines@[i].color == line_color_spec(self.history()[i].0),
    {
        let mut lines: Vec<HistoryLine> = Vec::new();
        let mut i: usize = 0;
        while i < self.messages.len()
            invariant
                i <= self.messages@.len(),
                lines@.len() == i,
                forall|j: int|
                    0 <= j < i ==> (#[trigger] lines@[j]).text@ == line_text_spec(
                        self.messages@[j].sender@,
                        self.messages@[j].content@,
                    ) && lines@[j].color == line_color_spec(self.messages@[j].sender@),
            decreases self.messages@.len() - i,
        {
            lines.push(self.messages[i].line());
            i += 1;
        }
        lines
    }
}

} // verus!
