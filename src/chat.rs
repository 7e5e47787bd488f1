use crate::api::{text_of, Message};
use crate::text::{i64_text, int_text, u64_text};
use vstd::prelude::*;

verus! {

/// A new or an edited message.
#[derive(Debug, Clone)]
pub enum MessageEvent {
    New(Message),
    Edited(Message),
}

impl MessageEvent {
    /// The message the event carries.
    pub open spec fn message_spec(&self) -> Message {
        match self {
            MessageEvent::New(m) => *m,
            MessageEvent::Edited(m) => *m,
        }
    }

    /// The message the event carries, new or edited.
    pub fn message(&self) -> (r: &Message)
        ensures
            *r == self.message_spec(),
    {
        match self {
            MessageEvent::New(m) => m,
            MessageEvent::Edited(m) => m,
        }
    }
}

/// The unit delivered to a handler. Replies are not sent by the handler
/// itself: it returns an `Action`, and the router performs the send.
#[derive(Debug, Clone)]
pub struct Event {
    pub message: MessageEvent,
}

/// An error that occurred while handling a chat event.
#[derive(Debug)]
pub enum Error {
    Failed(String),
}

impl Error {
    /// The text of the error: `Handler error: ` followed by its message.
    pub fn describe(&self) -> (r: String)
        ensures
            match self {
                Error::Failed(m) => r@ == "Handler error: "@ + m@,
            },
    {
        match self {
            Error::Failed(m) => {
                let mut s = String::from_str("Handler error: ");
                s.append(m.as_str());
                s
            },
        }
    }
}

impl From<String> for Error {
    fn from(s: String) -> (r: Error) {
        Error::Failed(s)
    }
}

impl<'a> From<&'a str> for Error {
    fn from(s: &'a str) -> (r: Error) {
        Error::from_text(s)
    }
}

impl<'a> vstd::std_specs::convert::FromSpecImpl<&'a str> for Error {
    /// What the conversion gives is stated by `Error::from_text`.
    open spec fn obeys_from_spec() -> bool {
        false
    }

    open spec fn from_spec(s: &'a str) -> Error {
        arbitrary()
    }
}

impl Error {
    /// A failure with the message `s`.
    pub fn from_text(s: &str) -> (r: Error)
        ensures
            r matches Error::Failed(m) && m@ == s@,
    {
        Error::Failed(String::from_str(s))
    }
}

impl vstd::std_specs::convert::FromSpecImpl<String> for Error {
    open spec fn obeys_from_spec() -> bool {
        true
    }

    open spec fn from_spec(s: String) -> Error {
        Error::Failed(s)
    }
}

/// What a handler asks for after it has seen an event. Each kind fixes
/// both its side effect and whether the chain goes on.
#[derive(Debug)]
pub enum Action {
    /// Continue to the next handler.
    Next,
    /// Stop handling this event.
    Done,
    /// Reply with the given text and continue to the next handler.
    ReplyText(String),
    /// Reply with the given sticker and continue to the next handler.
    ReplySticker(String),
}

/// An outbound reply that an action asks for.
#[derive(Debug)]
pub enum Reply {
    Text(String),
    Sticker(String),
}

impl Action {
    /// Whether the chain goes on after this action.
    pub open spec fn continues_spec(&self) -> bool {
        !(self is Done)
    }

    /// Whether the chain goes on after this action.
    pub fn continues(&self) -> (r: bool)
        ensures
            r == self.continues_spec(),
    {
        match self {
            Action::Done => false,
            _ => true,
        }
    }

    /// The reply the action asks for, if any.
    pub fn reply(&self) -> (r: Option<Reply>)
        ensures
            match self {
                Action::ReplyText(t) => r matches Some(Reply::Text(u)) && u@ == t@,
                Action::ReplySticker(t) => r matches Some(Reply::Sticker(u)) && u@ == t@,
                _ => r is None,
            },
    {
        match self {
            Action::ReplyText(t) => Some(Reply::Text(t.clone())),
            Action::ReplySticker(t) => Some(Reply::Sticker(t.clone())),
            _ => None,
        }
    }
}

/// Per-chat state of a counting handler.
#[derive(Debug, Clone, Copy, Default)]
pub struct ChatState {
    pub counter: u64,
}

/// `label(n): text`.
pub open spec fn counter_text(label: Seq<char>, n: int, text: Seq<char>) -> Seq<char> {
    label + "("@ + int_text(n) + "): "@ + text
}

/// `(chat) Message from name: text`.
pub open spec fn log_text(chat_id: int, name: Seq<char>, text: Seq<char>) -> Seq<char> {
    "("@ + int_text(chat_id) + ") Message from "@ + name + ": "@ + text
}

/// Builds `label(n): text`.
pub fn counter_reply(label: &str, n: u64, text: &str) -> (r: String)
    ensures
        r@ == counter_text(label@, n as int, text@),
{
    let mut s = String::from_str(label);
    s.append("(");
    let d = u64_text(n);
    s.append(d.as_str());
    s.append("): ");
    s.append(text);
    s
}

/// A counting handler: for a new message it counts it and replies with
/// `pong(count): text`; an edited message is an error.
pub fn pong_handler(e: &Event, state: &mut ChatState) -> (r: Result<Action, Error>)
    requires
        e.message is New ==> old(state).counter < u64::MAX,
    ensures
        match e.message {
            MessageEvent::New(m) => {
                &&& final(state).counter == old(state).counter + 1
                &&& r matches Ok(Action::ReplyText(t))
                &&& t@ == counter_text("pong"@, final(state).counter as int, text_of(m))
            },
            MessageEvent::Edited(_) => {
                &&& *final(state) == *old(state)
                &&& r matches Err(Error::Failed(msg))
                &&& msg@ == "Unhandled update"@
            },
        },
{
    match &e.message {
        MessageEvent::New(m) => {
            state.counter = state.counter + 1;
            let text = m.text_or_empty();
            Ok(Action::ReplyText(counter_reply("pong", state.counter, text.as_str())))
        },
        MessageEvent::Edited(_) => Err(Error::Failed(String::from_str("Unhandled update"))),
    }
}

/// The uptime handler: for a new message it counts it and replies with
/// `uptime(count): uptime`, where `uptime` is what the system reported
/// (`None` when asking failed, which is an error after the count).
/// An edited message is an error.
pub fn handle_chat_event(e: &Event, state: &mut ChatState, uptime: Option<String>) -> (r: Result<Action, Error>)
    requires
        e.message is New ==> old(state).counter < u64::MAX,
    ensures
        match e.message {
            MessageEvent::New(_) => {
                &&& final(state).counter == old(state).counter + 1
                &&& match uptime {
                    Some(u) => r matches Ok(Action::ReplyText(t))
                        && t@ == counter_text("uptime"@, final(state).counter as int, u@),
                    None => r matches Err(Error::Failed(msg)) && msg@ == "Failed to get uptime"@,
                }
            },
            MessageEvent::Edited(_) => {
                &&& *final(state) == *old(state)
                &&& r matches Err(Error::Failed(msg))
                &&& msg@ == "Unhandled update"@
            },
        },
{
    match &e.message {
        MessageEvent::New(_) => {
            state.counter = state.counter + 1;
            match uptime {
                Some(u) => Ok(Action::ReplyText(counter_reply("uptime", state.counter, u.as_str()))),
                None => Err(Error::Failed(String::from_str("Failed to get uptime"))),
            }
        },
        MessageEvent::Edited(_) => Err(Error::Failed(String::from_str("Unhandled update"))),
    }
}

/// First name of the sender, empty when the message has none.
pub open spec fn sender_name(m: Message) -> Seq<char> {
    match m.from {
        Some(u) => u.first_name@,
        None => Seq::empty(),
    }
}

/// The logging handler: the chain goes on, and the line to log is
/// `(chat) Message from name: text`, with an empty name when the message
/// has no sender.
pub fn log_handler(e: &Event) -> (r: (Action, String))
    ensures
        r.0 is Next,
        r.1@ == log_text(
            e.message.message_spec().chat.id as int,
            sender_name(e.message.message_spec()),
            text_of(e.message.message_spec()),
        ),
{
    let m = e.message.message();
    let mut s = String::from_str("(");
    let id = i64_text(m.chat.id);
    s.append(id.as_str());
    s.append(") Message from ");
    match &m.from {
        Some(u) => s.append(u.first_name.as_str()),
        None => {},
    }
    s.append(": ");
    let text = m.text_or_empty();
    s.append(text.as_str());
    (Action::Next, s)
}

} // verus!
