use crate::chat::MessageEvent;
use vstd::prelude::*;

verus! {

/// Formatting mode for the text of an outgoing message.
#[derive(Clone, Copy, Debug, PartialEq, Eq, Structural)]
pub enum ParseMode {
    MarkdownV2,
    HTML,
    Markdown,
}

/// The sender of a message.
#[derive(Clone, Debug)]
pub struct User {
    pub id: i64,
    pub first_name: String,
}

/// The conversation a message belongs to.
#[derive(Clone, Debug)]
pub struct Chat {
    pub id: i64,
    pub username: Option<String>,
}

/// A message envelope: the few fields that the router inspects.
#[derive(Clone, Debug)]
pub struct Message {
    pub message_id: i64,
    pub chat: Chat,
    pub from: Option<User>,
    pub text: Option<String>,
    /// File id of the sticker the message carries, if any.
    pub sticker: Option<String>,
}

/// Text of a message, empty when it has none.
pub open spec fn text_of(m: Message) -> Seq<char> {
    match m.text {
        Some(t) => t@,
        None => Seq::empty(),
    }
}

impl Message {
    /// Builds a text message from `first_name` in chat `chat_id`.
    pub fn new_text(message_id: i64, chat_id: i64, first_name: String, text: String) -> (r: Message)
        ensures
            r.message_id == message_id,
            r.chat.id == chat_id,
            r.chat.username.is_none(),
            r.from.is_some() && r.from.unwrap().first_name@ == first_name@,
            r.text.is_some() && r.text.unwrap()@ == text@,
            r.sticker.is_none(),
    {
        Message {
            message_id,
            chat: Chat { id: chat_id, username: None },
            from: Some(User { id: chat_id, first_name }),
            text: Some(text),
            sticker: None,
        }
    }

    /// The text of the message, or the empty string when it has none.
    pub fn text_or_empty(&self) -> (r: String)
        ensures
            r@ == text_of(*self),
    {
        match &self.text {
            Some(t) => t.clone(),
            None => String::new(),
        }
    }

    /// A copy of the fields that contracts speak of.
    pub fn duplicate(&self) -> (r: Message)
        ensures
            same_message(r, *self),
    {
        let from = match &self.from {
            Some(u) => Some(User { id: u.id, first_name: u.first_name.clone() }),
            None => None,
        };
        let username = match &self.chat.username {
            Some(n) => Some(n.clone()),
            None => None,
        };
        let text = match &self.text {
            Some(t) => Some(t.clone()),
            None => None,
        };
        let sticker = match &self.sticker {
            Some(t) => Some(t.clone()),
            None => None,
        };
        Message {
            message_id: self.message_id,
            chat: Chat { id: self.chat.id, username },
            from,
            text,
            sticker,
        }
    }
}

/// Two messages agree on id, chat, sender and text.
pub open spec fn same_message(a: Message, b: Message) -> bool {
    &&& a.message_id == b.message_id
    &&& a.chat.id == b.chat.id
    &&& a.chat.username.is_some() == b.chat.username.is_some()
    &&& a.chat.username.is_some() ==> a.chat.username.unwrap()@ == b.chat.username.unwrap()@
    &&& a.from.is_some() == b.from.is_some()
    &&& a.from.is_some() ==> (a.from.unwrap().id == b.from.unwrap().id
        && a.from.unwrap().first_name@ == b.from.unwrap().first_name@)
    &&& a.text.is_some() == b.text.is_some()
    &&& text_of(a) == text_of(b)
    &&& a.sticker.is_some() == b.sticker.is_some()
    &&& a.sticker.is_some() ==> a.sticker.unwrap()@ == b.sticker.unwrap()@
}

/// One inbound event: a new or edited message under a unique, ordered id.
#[derive(Debug, Clone)]
pub struct Update {
    pub update_id: i64,
    pub message: MessageEvent,
}

impl Update {
    /// A copy of the fields that contracts speak of.
    pub fn duplicate(&self) -> (r: Update)
        ensures
            same_update(r, *self),
    {
        let message = match &self.message {
            MessageEvent::New(m) => MessageEvent::New(m.duplicate()),
            MessageEvent::Edited(m) => MessageEvent::Edited(m.duplicate()),
        };
        Update { update_id: self.update_id, message }
    }
}

/// Two updates agree on id, kind and message.
pub open spec fn same_update(a: Update, b: Update) -> bool {
    &&& a.update_id == b.update_id
    &&& (a.message is New) == (b.message is New)
    &&& same_message(a.message.message_spec(), b.message.message_spec())
}

} // verus!
