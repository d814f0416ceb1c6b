//! One connection's lifecycle as a state machine.
//!
//! A session is driven from outside: the driver performs the [`Action`] it
//! was handed, then reports what happened as the next [`Event`]. A session
//! asks for one thing at a time, so reads, writes and model calls of one
//! connection never overlap.

use vstd::prelude::*;
use vstd::string::*;
use vstd::utf8::*;
use crate::gateway::LlmFailure;
use crate::command::{classify, classify_spec, help_word, quit_word, Command, CommandView};
use crate::wording::{BANNER, FALLBACK, HELP_TEXT, PROMPT_MARKER};

verus! {

/// The two forms a client connection takes.
#[derive(Clone, Copy, Debug, PartialEq, Eq)]
pub enum Transport {
    /// A plain byte stream; each chunk read is one unit of input.
    RawTcp,
    /// A message-framed stream; each text message is one unit of input.
    WebSocket,
}

/// Where a session stands.
#[derive(Clone, Copy, Debug, PartialEq, Eq)]
pub enum Phase {
    /// The banner is being written (raw streams only).
    Greeting,
    /// Waiting for the client's next unit of input.
    AwaitInput,
    /// The help text is being written.
    RunHelp,
    /// The model has been asked and has not answered yet.
    RunPrompt,
    /// The answer, or the fallback message, is being written.
    Replying,
    /// The session is over.
    Closed,
}

/// What the driver reports back to a session.
#[derive(Debug, PartialEq, Eq)]
pub enum Event {
    /// A read on a raw stream returned these bytes; none means end of stream.
    Chunk(Vec<u8>),
    /// A text message arrived.
    Message(String),
    /// A frame that carries no text arrived.
    Other,
    /// The peer closed the connection.
    Disconnected,
    /// Reading from the transport failed.
    ReadFailed,
    /// The requested write completed.
    Written,
    /// The requested write failed.
    WriteFailed,
    /// The model call finished.
    Generated(Result<String, LlmFailure>),
}

/// The mathematical value of an [`Event`].
pub enum EventView {
    Chunk(Seq<u8>),
    Message(Seq<char>),
    Other,
    Disconnected,
    ReadFailed,
    Written,
    WriteFailed,
    Generated(Result<Seq<char>, LlmFailure>),
}

impl View for Event {
    type V = EventView;

    open spec fn view(&self) -> EventView {
        match self {
            Event::Chunk(bytes) => EventView::Chunk(bytes@),
            Event::Message(text) => EventView::Message(text@),
            Event::Other => EventView::Other,
            Event::Disconnected => EventView::Disconnected,
            Event::ReadFailed => EventView::ReadFailed,
            Event::Written => EventView::Written,
            Event::WriteFailed => EventView::WriteFailed,
            Event::Generated(Ok(reply)) => EventView::Generated(Ok(reply@)),
            Event::Generated(Err(failure)) => EventView::Generated(Err(*failure)),
        }
    }
}

/// What a session asks its driver to do next.
#[derive(Debug, PartialEq, Eq)]
pub enum Action {
    /// Write this text to the client: as bytes on a raw stream, as exactly
    /// one text message otherwise. Report `Written` or `WriteFailed`.
    Send(String),
    /// Wait for the next unit of input and report it.
    Read,
    /// Ask the model this prompt and report `Generated`.
    Generate(String),
    /// Tear the transport down; write nothing more.
    Close,
}

/// The mathematical value of an [`Action`].
pub enum ActionView {
    Send(Seq<char>),
    Read,
    Generate(Seq<char>),
    Close,
}

impl View for Action {
    type V = ActionView;

    open spec fn view(&self) -> ActionView {
        match self {
            Action::Send(text) => ActionView::Send(text@),
            Action::Read => ActionView::Read,
            Action::Generate(prompt) => ActionView::Generate(prompt@),
            Action::Close => ActionView::Close,
        }
    }
}

/// What a client is sent for a model answer: the answer itself, followed on
/// a raw stream by the prompt marker.
pub open spec fn reply_payload(transport: Transport, reply: Seq<char>) -> Seq<char> {
    match transport {
        Transport::RawTcp => reply + PROMPT_MARKER@,
        Transport::WebSocket => reply,
    }
}

/// A new session's phase and first action: a raw stream is greeted with the
/// banner, a message stream is read from at once.
pub open spec fn open_spec(transport: Transport) -> (Phase, ActionView) {
    match transport {
        Transport::RawTcp => (Phase::Greeting, ActionView::Send(BANNER@)),
        Transport::WebSocket => (Phase::AwaitInput, ActionView::Read),
    }
}

/// What a unit of text does to a waiting session.
pub open spec fn on_text_spec(text: Seq<char>) -> (Phase, ActionView) {
    match classify_spec(text) {
        CommandView::Help => (Phase::RunHelp, ActionView::Send(HELP_TEXT@)),
        CommandView::Quit => (Phase::Closed, ActionView::Close),
        CommandView::Prompt(prompt) => (Phase::RunPrompt, ActionView::Generate(prompt)),
    }
}

/// The transition function: the phase a session moves to and the action it
/// asks for, given where it stands and what happened.
///
/// An event that the phase does not wait for means the driver broke the
/// one-thing-at-a-time discipline; the session closes.
pub open spec fn step_spec(phase: Phase, transport: Transport, event: EventView) -> (
    Phase,
    ActionView,
) {
    match phase {
        Phase::Greeting | Phase::RunHelp | Phase::Replying => match event {
            EventView::Written => (Phase::AwaitInput, ActionView::Read),
            _ => (Phase::Closed, ActionView::Close),
        },
        Phase::AwaitInput => match event {
            EventView::Chunk(bytes) => if bytes.len() == 0 {
                (Phase::Closed, ActionView::Close)
            } else if !valid_utf8(bytes) {
                (Phase::AwaitInput, ActionView::Read)
            } else {
                on_text_spec(decode_utf8(bytes))
            },
            EventView::Message(text) => on_text_spec(text),
            EventView::Other => (Phase::AwaitInput, ActionView::Read),
            _ => (Phase::Closed, ActionView::Close),
        },
        Phase::RunPrompt => match event {
            EventView::Generated(Ok(reply)) => (
                Phase::Replying,
                ActionView::Send(reply_payload(transport, reply)),
            ),
            EventView::Generated(Err(_)) => (Phase::Replying, ActionView::Send(FALLBACK@)),
            _ => (Phase::Closed, ActionView::Close),
        },
        Phase::Closed => (Phase::Closed, ActionView::Close),
    }
}

/// The text that a chunk of bytes holds, if it is text.
///
/// Trusted: this is `core::str::from_utf8`. It answers with a string exactly
/// when the bytes are well-formed UTF-8, and that string's bytes are then the
/// bytes given.
#[verifier::external_body]
fn text_of(bytes: &[u8]) -> (text: Option<&str>)
    ensures
        text is Some <==> valid_utf8(bytes@),
        text matches Some(s) ==> s.spec_bytes() == bytes@,
{
    core::str::from_utf8(bytes).ok()
}

/// One client connection, from acceptance to close.
pub struct Session {
    id: u64,
    transport: Transport,
    phase: Phase,
}

impl Session {
    /// A message stream is never greeted.
    #[verifier::type_invariant]
    spec fn greets_raw_streams_only(self) -> bool {
        self.phase is Greeting ==> self.transport is RawTcp
    }

    /// The identifier given at acceptance; it only serves to tell sessions
    /// apart in logs.
    pub closed spec fn spec_id(&self) -> u64 {
        self.id
    }

    /// The transport this session was opened on.
    pub closed spec fn spec_transport(&self) -> Transport {
        self.transport
    }

    /// Where the session stands.
    pub closed spec fn spec_phase(&self) -> Phase {
        self.phase
    }

    /// Opens a session on a freshly accepted connection and says what to do
    /// first.
    pub fn open(id: u64, transport: Transport) -> (opened: (Session, Action))
        ensures
            opened.0.spec_id() == id,
            opened.0.spec_transport() == transport,
            (opened.0.spec_phase(), opened.1@) == open_spec(transport),
    {
        match transport {
            Transport::RawTcp => (
                Session { id, transport, phase: Phase::Greeting },
                Action::Send(BANNER.to_owned()),
            ),
            Transport::WebSocket => (
                Session { id, transport, phase: Phase::AwaitInput },
                Action::Read,
            ),
        }
    }

    /// The identifier given at acceptance.
    #[verifier::when_used_as_spec(spec_id)]
    pub fn id(&self) -> (id: u64)
        ensures
            id == self.spec_id(),
    {
        self.id
    }

    /// The transport this session was opened on.
    #[verifier::when_used_as_spec(spec_transport)]
    pub fn transport(&self) -> (transport: Transport)
        ensures
            transport == self.spec_transport(),
    {
        self.transport
    }

    /// Where the session stands. Only a raw stream is ever greeted.
    #[verifier::when_used_as_spec(spec_phase)]
    pub fn phase(&self) -> (phase: Phase)
        ensures
            phase == self.spec_phase(),
            phase is Greeting ==> self.spec_transport() is RawTcp,
    {
        proof {
            use_type_invariant(self);
        }
        self.phase
    }

    /// Whether the session is over.
    pub fn is_closed(&self) -> (closed: bool)
        ensures
            closed == (self.spec_phase() is Closed),
    {
        match self.phase {
            Phase::Closed => true,
            _ => false,
        }
    }

    /// Takes what happened and answers with what to do next.
    pub fn step(&mut self, event: Event) -> (action: Action)
        ensures
            final(self).spec_id() == old(self).spec_id(),
            final(self).spec_transport() == old(self).spec_transport(),
            (final(self).spec_phase(), action@) == step_spec(
                old(self).spec_phase(),
                old(self).spec_transport(),
                event@,
            ),
    {
        let (phase, action) = match self.phase {
            Phase::Greeting | Phase::RunHelp | Phase::Replying => match event {
                Event::Written => (Phase::AwaitInput, Action::Read),
                _ => (Phase::Closed, Action::Close),
            },
            Phase::AwaitInput => match event {
                Event::Chunk(bytes) => {
                    if bytes.len() == 0 {
                        (Phase::Closed, Action::Close)
                    } else {
                        match text_of(bytes.as_slice()) {
                            None => (Phase::AwaitInput, Action::Read),
                            Some(text) => {
                                proof {
                                    encode_utf8_decode_utf8(text@);
                                }
                                on_text(text)
                            },
                        }
                    }
                },
                Event::Message(text) => on_text(text.as_str()),
                Event::Other => (Phase::AwaitInput, Action::Read),
                _ => (Phase::Closed, Action::Close),
            },
            Phase::RunPrompt => match event {
                Event::Generated(Ok(reply)) => (
                    Phase::Replying,
                    Action::Send(payload(self.transport, reply)),
                ),
                Event::Generated(Err(_)) => (Phase::Replying, Action::Send(FALLBACK.to_owned())),
                _ => (Phase::Closed, Action::Close),
            },
            Phase::Closed => (Phase::Closed, Action::Close),
        };
        self.phase = phase;
        action
    }
}

/// Wraps a model answer for the client.
pub fn payload(transport: Transport, reply: String) -> (text: String)
    ensures
        text@ == reply_payload(transport, reply@),
{
    match transport {
        Transport::RawTcp => reply.concat(PROMPT_MARKER),
        Transport::WebSocket => reply,
    }
}

/// Decides what a unit of text asks for.
pub fn on_text(text: &str) -> (next: (Phase, Action))
    ensures
        (next.0, next.1@) == on_text_spec(text@),
{
    match classify(text) {
        Command::Help => (Phase::RunHelp, Action::Send(HELP_TEXT.to_owned())),
        Command::Quit => (Phase::Closed, Action::Close),
        Command::Prompt(prompt) => (Phase::RunPrompt, Action::Generate(prompt)),
    }
}

/// The text that a reported input carries: a message's text, or what a
/// chunk that is not empty decodes to, where it decodes.
pub open spec fn text_in(input: EventView) -> Option<Seq<char>> {
    match input {
        EventView::Chunk(bytes) => if bytes.len() > 0 && valid_utf8(bytes) {
            Some(decode_utf8(bytes))
        } else {
            None
        },
        EventView::Message(text) => Some(text),
        _ => None,
    }
}

/// The phase reached and the actions asked for when a session is driven
/// through `events` in order.
pub open spec fn run_spec(phase: Phase, transport: Transport, events: Seq<EventView>) -> (
    Phase,
    Seq<ActionView>,
)
    decreases events.len(),
{
    if events.len() == 0 {
        (phase, Seq::empty())
    } else {
        let before = run_spec(phase, transport, events.drop_last());
        let last = step_spec(before.0, transport, events.last());
        (last.0, before.1.push(last.1))
    }
}

/// A waiting session treats text alike however it arrived: what it does
/// with an input that carries text is decided by the text alone.
pub proof fn law_one_grammar_for_all_transports(transport: Transport, input: EventView)
    requires
        text_in(input) is Some,
    ensures
        step_spec(Phase::AwaitInput, transport, input) == on_text_spec(text_in(input)->0),
{
}

/// A help command is answered with the help text, on any transport and
/// whatever follows the command word, and the session then waits for input
/// again.
pub proof fn law_help_is_answered(transport: Transport, input: EventView)
    requires
        text_in(input) is Some,
        help_word().is_prefix_of(text_in(input)->0),
    ensures
        step_spec(Phase::AwaitInput, transport, input) == (
            Phase::RunHelp,
            ActionView::Send(HELP_TEXT@),
        ),
        step_spec(Phase::RunHelp, transport, EventView::Written) == (
            Phase::AwaitInput,
            ActionView::Read,
        ),
{
}

/// A closed session stays closed and never asks for anything to be read,
/// written or generated, whatever is reported to it.
pub proof fn law_closed_is_final(transport: Transport, later: Seq<EventView>)
    ensures
        run_spec(Phase::Closed, transport, later).0 == Phase::Closed,
        run_spec(Phase::Closed, transport, later).1.len() == later.len(),
        forall|i: int|
            0 <= i < later.len() ==> #[trigger] run_spec(Phase::Closed, transport, later).1[i]
                == ActionView::Close,
    decreases later.len(),
{
    if later.len() > 0 {
        law_closed_is_final(transport, later.drop_last());
    }
}

/// A quit command closes the session at once and nothing is written after
/// it, whatever is reported to the session afterwards.
pub proof fn law_quit_closes_silently(
    transport: Transport,
    input: EventView,
    later: Seq<EventView>,
)
    requires
        text_in(input) is Some,
        quit_word().is_prefix_of(text_in(input)->0),
    ensures
        step_spec(Phase::AwaitInput, transport, input) == (Phase::Closed, ActionView::Close),
        forall|i: int|
            0 <= i < later.len() ==> #[trigger] run_spec(Phase::Closed, transport, later).1[i]
                == ActionView::Close,
{
    let text = text_in(input)->0;
    assert(!help_word().is_prefix_of(text)) by {
        if help_word().is_prefix_of(text) {
            assert(help_word()[1] == text[1]);
            assert(quit_word()[1] == text[1]);
        }
    }
    law_closed_is_final(transport, later);
}

/// A prompt is handed to the model as it arrived, and the model's answer
/// reaches the client as one write: the answer followed by the prompt marker
/// on a raw stream, the answer alone as a single message otherwise.
pub proof fn law_answer_reaches_client(transport: Transport, input: EventView, reply: Seq<char>)
    requires
        text_in(input) is Some,
        classify_spec(text_in(input)->0) is Prompt,
    ensures
        ({
            let asked = step_spec(Phase::AwaitInput, transport, input);
            let answered = step_spec(asked.0, transport, EventView::Generated(Ok(reply)));
            let written = step_spec(answered.0, transport, EventView::Written);
            &&& asked.1 == ActionView::Generate(text_in(input)->0)
            &&& answered.1 == ActionView::Send(
                match transport {
                    Transport::RawTcp => reply + PROMPT_MARKER@,
                    Transport::WebSocket => reply,
                },
            )
            &&& written == (Phase::AwaitInput, ActionView::Read)
        }),
{
}

/// A failed model call costs one exchange and no more: the client is sent
/// the fallback message, the session stays open, and the next prompt is
/// asked and answered as if nothing had failed.
pub proof fn law_failure_is_not_sticky(
    transport: Transport,
    first: EventView,
    failure: LlmFailure,
    second: EventView,
    reply: Seq<char>,
)
    requires
        text_in(first) is Some,
        classify_spec(text_in(first)->0) is Prompt,
        text_in(second) is Some,
        classify_spec(text_in(second)->0) is Prompt,
    ensures
        ({
            let asked = step_spec(Phase::AwaitInput, transport, first);
            let failed = step_spec(asked.0, transport, EventView::Generated(Err(failure)));
            let written = step_spec(failed.0, transport, EventView::Written);
            let again = step_spec(written.0, transport, second);
            let answered = step_spec(again.0, transport, EventView::Generated(Ok(reply)));
            &&& failed.1 == ActionView::Send(FALLBACK@)
            &&& written == (Phase::AwaitInput, ActionView::Read)
            &&& again.1 == ActionView::Generate(text_in(second)->0)
            &&& answered == (Phase::Replying, ActionView::Send(reply_payload(transport, reply)))
        }),
{
}

/// A failed write ends the session, whatever was being written.
pub proof fn law_write_failure_is_fatal(phase: Phase, transport: Transport)
    ensures
        step_spec(phase, transport, EventView::WriteFailed) == (Phase::Closed, ActionView::Close),
{
}

/// Input that is not text is dropped: nothing is written and the session
/// goes on waiting.
pub proof fn law_undecodable_input_is_dropped(transport: Transport, bytes: Seq<u8>)
    requires
        bytes.len() > 0,
        !valid_utf8(bytes),
    ensures
        step_spec(Phase::AwaitInput, transport, EventView::Chunk(bytes)) == (
            Phase::AwaitInput,
            ActionView::Read,
        ),
{
}

/// A session never asks for two things at once, and never reads while a
/// write or a model call is under way: in every phase but waiting, an input
/// is out of turn and ends the session.
pub proof fn law_one_thing_at_a_time(phase: Phase, transport: Transport, input: EventView)
    requires
        !(phase is AwaitInput),
        input is Chunk || input is Message || input is Other,
    ensures
        step_spec(phase, transport, input) == (Phase::Closed, ActionView::Close),
{
}

} // verus!
