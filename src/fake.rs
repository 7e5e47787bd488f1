use crate::api::{same_message, same_update, Chat, Message, Update};
use crate::chat::MessageEvent;
use vstd::prelude::*;

verus! {

/// Ids of the messages of chat `c` in `s`, in order.
pub open spec fn ids_of_chat(s: Seq<Message>, c: i64) -> Seq<i64>
    decreases s.len(),
{
    if s.len() == 0 {
        Seq::empty()
    } else {
        let prev = ids_of_chat(s.drop_last(), c);
        if s.last().chat.id == c {
            prev.push(s.last().message_id)
        } else {
            prev
        }
    }
}

/// `k` is the first position of a message of chat `c` in `s`.
pub open spec fn first_of_chat(s: Seq<Message>, c: i64, k: int) -> bool {
    &&& 0 <= k < s.len()
    &&& s[k].chat.id == c
    &&& forall|j: int| 0 <= j < k ==> s[j].chat.id != c
}

/// Messages of one chat leave a queue in the order they entered it: taking
/// out the first message of chat `c` takes the head of that chat's
/// messages, leaves the rest of them in order, and leaves every other chat's
/// messages as they were.
pub proof fn lemma_chat_order_kept(s: Seq<Message>, c: i64, k: int)
    requires
        first_of_chat(s, c, k),
    ensures
        ids_of_chat(s, c).len() > 0,
        ids_of_chat(s, c)[0] == s[k].message_id,
        ids_of_chat(s.remove(k), c) == ids_of_chat(s, c).drop_first(),
        forall|d: i64| d != c ==> ids_of_chat(s.remove(k), d) == ids_of_chat(s, d),
    decreases s.len(),
{
    let t = s.remove(k);
    if k == s.len() - 1 {
        assert(t =~= s.drop_last());
        lemma_none_of_chat(s.drop_last(), c);
        assert(ids_of_chat(s, c) =~= seq![s[k].message_id]);
        assert forall|d: i64| d != c implies ids_of_chat(t, d) == ids_of_chat(s, d) by {}
    } else {
        let p = s.drop_last();
        lemma_chat_order_kept(p, c, k);
        assert(t.drop_last() =~= p.remove(k));
        assert(t.last() == s.last());
        assert(ids_of_chat(t, c) =~= ids_of_chat(s, c).drop_first());
        assert forall|d: i64| d != c implies ids_of_chat(t, d) == ids_of_chat(s, d) by {
            assert(ids_of_chat(p.remove(k), d) == ids_of_chat(p, d));
        }
    }
}

proof fn lemma_none_of_chat(s: Seq<Message>, c: i64)
    requires
        forall|j: int| 0 <= j < s.len() ==> s[j].chat.id != c,
    ensures
        ids_of_chat(s, c) == Seq::<i64>::empty(),
    decreases s.len(),
{
    if s.len() > 0 {
        lemma_none_of_chat(s.drop_last(), c);
    }
}

/// A conversation with the fake server, seen from the user's side.
#[derive(Debug, Clone)]
pub struct VirtualChat {
    pub chat_id: i64,
    pub username: String,
}

/// An in-memory stand-in for the remote endpoint: users' messages become
/// updates in order, and the bot's messages wait for their chat to read them.
pub struct FakeServer {
    updates: Vec<Update>,
    outbox: Vec<Message>,
    next_chat_id: i64,
    next_message_id: i64,
}

impl FakeServer {
    /// Every update ever enqueued; the one at position `i` has id `i + 1`.
    pub closed spec fn updates(&self) -> Seq<Update> {
        self.updates@
    }

    /// Messages sent to the users and not yet read, in the order sent.
    pub closed spec fn outbox(&self) -> Seq<Message> {
        self.outbox@
    }

    pub closed spec fn next_chat_id(&self) -> i64 {
        self.next_chat_id
    }

    pub closed spec fn next_message_id(&self) -> i64 {
        self.next_message_id
    }

    pub closed spec fn wf(&self) -> bool {
        &&& forall|i: int| 0 <= i < self.updates@.len() ==> self.updates@[i].update_id == i + 1
        &&& self.updates@.len() < i64::MAX
        &&& 0 < self.next_chat_id
        &&& 0 < self.next_message_id
    }

    /// Whether another message id is left to hand out.
    pub fn has_room(&self) -> (r: bool)
        ensures
            r == (self.next_message_id() < i64::MAX),
    {
        self.next_message_id < i64::MAX
    }

    /// Whether another update can be enqueued.
    pub fn can_enqueue(&self) -> (r: bool)
        requires
            self.wf(),
        ensures
            r == (self.next_message_id() < i64::MAX && self.updates().len() + 1 < i64::MAX),
    {
        self.next_message_id < i64::MAX && (self.updates.len() as i64) < i64::MAX - 1
    }

    /// A server with no chats, updates or messages.
    pub fn new() -> (r: Self)
        ensures
            r.wf(),
            r.updates() == Seq::<Update>::empty(),
            r.outbox() == Seq::<Message>::empty(),
            r.next_chat_id() == 1,
            r.next_message_id() == 1,
    {
        FakeServer { updates: Vec::new(), outbox: Vec::new(), next_chat_id: 1, next_message_id: 1 }
    }

    /// Opens a conversation with a new chat id for user `username`.
    pub fn create_chat(&mut self, username: String) -> (r: VirtualChat)
        requires
            old(self).wf(),
            old(self).next_chat_id() < i64::MAX,
        ensures
            final(self).wf(),
            r.chat_id == old(self).next_chat_id(),
            r.username@ == username@,
            final(self).next_chat_id() == old(self).next_chat_id() + 1,
            final(self).updates() == old(self).updates(),
            final(self).outbox() == old(self).outbox(),
            final(self).next_message_id() == old(self).next_message_id(),
    {
        let chat_id = self.next_chat_id;
        self.next_chat_id = self.next_chat_id + 1;
        VirtualChat { chat_id, username }
    }

    /// The user of `chat` sends `text`: a new-message update is enqueued
    /// with the next id. Returns that id.
    pub fn send_text(&mut self, chat: &VirtualChat, text: String) -> (r: i64)
        requires
            old(self).wf(),
            old(self).updates().len() + 1 < i64::MAX,
            old(self).next_message_id() < i64::MAX,
        ensures
            final(self).wf(),
            r == old(self).updates().len() + 1,
            final(self).updates().len() == old(self).updates().len() + 1,
            final(self).updates().drop_last() == old(self).updates(),
            final(self).updates().last().update_id == r,
            final(self).updates().last().message matches MessageEvent::New(m) && {
                &&& m.message_id == old(self).next_message_id()
                &&& m.chat.id == chat.chat_id
                &&& m.from.is_some() && m.from.unwrap().first_name@ == chat.username@
                &&& m.text.is_some() && m.text.unwrap()@ == text@
            },
            final(self).outbox() == old(self).outbox(),
            final(self).next_chat_id() == old(self).next_chat_id(),
            final(self).next_message_id() == old(self).next_message_id() + 1,
    {
        let id = self.updates.len() as i64 + 1;
        let m = Message::new_text(self.next_message_id, chat.chat_id, chat.username.clone(), text);
        self.next_message_id = self.next_message_id + 1;
        let ghost u0 = self.updates@;
        self.updates.push(Update { update_id: id, message: MessageEvent::New(m) });
        assert(self.updates@.drop_last() =~= u0);
        id
    }

    /// The updates with an id of at least `offset`, in ascending id order.
    pub fn fetch_updates(&self, offset: i64) -> (r: Vec<Update>)
        requires
            self.wf(),
        ensures
            r@.len() == self.updates().len() - fetch_start(offset, self.updates().len() as int),
            forall|i: int| 0 <= i < r@.len() ==> r@[i].update_id == fetch_start(offset, self.updates().len() as int) + i + 1,
            self.updates().len() < i64::MAX,
            forall|i: int| 0 <= i < r@.len() ==> same_update(
                r@[i],
                self.updates()[fetch_start(offset, self.updates().len() as int) + i],
            ),
    {
        let n = self.updates.len();
        let start: usize = if offset <= 1 {
            0
        } else if offset - 1 >= n as i64 {
            n
        } else {
            (offset - 1) as usize
        };
        let mut r: Vec<Update> = Vec::new();
        let mut i: usize = start;
        while i < n
            invariant
                start <= i <= n,
                n == self.updates@.len(),
                start == fetch_start(offset, n as int),
                r@.len() == i - start,
                forall|j: int| 0 <= j < r@.len() ==> same_update(r@[j], self.updates@[start + j]),
            decreases n - i,
        {
            let u = self.updates[i].duplicate();
            r.push(u);
            i = i + 1;
        }
        r
    }

    /// The bot sends `text` to chat `chat_id`; the message waits in the
    /// outbox for that chat to read it.
    pub fn send_message(&mut self, chat_id: i64, text: String) -> (r: Message)
        requires
            old(self).wf(),
            old(self).next_message_id() < i64::MAX,
        ensures
            final(self).wf(),
            final(self).outbox().len() == old(self).outbox().len() + 1,
            final(self).outbox().drop_last() == old(self).outbox(),
            same_message(final(self).outbox().last(), r),
            r.message_id == old(self).next_message_id(),
            r.chat.id == chat_id,
            r.text.is_some() && r.text.unwrap()@ == text@,
            r.sticker.is_none(),
            final(self).updates() == old(self).updates(),
            final(self).next_chat_id() == old(self).next_chat_id(),
            final(self).next_message_id() == old(self).next_message_id() + 1,
    {
        let m = Message {
            message_id: self.next_message_id,
            chat: Chat { id: chat_id, username: None },
            from: None,
            text: Some(text),
            sticker: None,
        };
        self.next_message_id = self.next_message_id + 1;
        let r = m.duplicate();
        self.outbox.push(m);
        assert(self.outbox@.drop_last() =~= old(self).outbox@);
        r
    }

    /// The bot sends the sticker `sticker_id` to chat `chat_id`; the message
    /// waits in the outbox for that chat to read it.
    pub fn send_sticker(&mut self, chat_id: i64, sticker_id: String) -> (r: Message)
        requires
            old(self).wf(),
            old(self).next_message_id() < i64::MAX,
        ensures
            final(self).wf(),
            final(self).outbox().len() == old(self).outbox().len() + 1,
            final(self).outbox().drop_last() == old(self).outbox(),
            same_message(final(self).outbox().last(), r),
            r.message_id == old(self).next_message_id(),
            r.chat.id == chat_id,
            r.text.is_none(),
            r.sticker.is_some() && r.sticker.unwrap()@ == sticker_id@,
            final(self).updates() == old(self).updates(),
            final(self).next_chat_id() == old(self).next_chat_id(),
            final(self).next_message_id() == old(self).next_message_id() + 1,
    {
        let m = Message {
            message_id: self.next_message_id,
            chat: Chat { id: chat_id, username: None },
            from: None,
            text: None,
            sticker: Some(sticker_id),
        };
        self.next_message_id = self.next_message_id + 1;
        let r = m.duplicate();
        self.outbox.push(m);
        assert(self.outbox@.drop_last() =~= old(self).outbox@);
        r
    }

    /// The user of `chat` reads the next message the bot sent to it, if
    /// there is one (`None` stands for a timeout).
    pub fn recv_message(&mut self, chat: &VirtualChat) -> (r: Option<Message>)
        requires
            old(self).wf(),
        ensures
            final(self).wf(),
            final(self).updates() == old(self).updates(),
            final(self).next_chat_id() == old(self).next_chat_id(),
            final(self).next_message_id() == old(self).next_message_id(),
            match r {
                Some(m) => exists|k: int| {
                    &&& first_of_chat(old(self).outbox(), chat.chat_id, k)
                    &&& m == old(self).outbox()[k]
                    &&& final(self).outbox() == old(self).outbox().remove(k)
                },
                None => {
                    &&& forall|j: int| 0 <= j < old(self).outbox().len()
                        ==> (#[trigger] old(self).outbox()[j]).chat.id != chat.chat_id
                    &&& ids_of_chat(old(self).outbox(), chat.chat_id) == Seq::<i64>::empty()
                    &&& final(self).outbox() == old(self).outbox()
                },
            },
    {
        match self.first_position(chat.chat_id) {
            Some(k) => {
                let m = self.outbox.remove(k);
                assert(first_of_chat(old(self).outbox(), chat.chat_id, k as int));
                Some(m)
            },
            None => {
                proof {
                    lemma_none_of_chat(self.outbox@, chat.chat_id);
                }
                None
            },
        }
    }

    fn first_position(&self, chat_id: i64) -> (r: Option<usize>)
        ensures
            match r {
                Some(k) => first_of_chat(self.outbox@, chat_id, k as int),
                None => forall|j: int| 0 <= j < self.outbox@.len() ==> self.outbox@[j].chat.id != chat_id,
            },
    {
        let mut k: usize = 0;
        while k < self.outbox.len()
            invariant
                k <= self.outbox@.len(),
                forall|j: int| 0 <= j < k ==> self.outbox@[j].chat.id != chat_id,
            decreases self.outbox@.len() - k,
        {
            if self.outbox[k].chat.id == chat_id {
                return Some(k);
            }
            k = k + 1;
        }
        None
    }
}

/// Position of the first update with an id of at least `offset`, when the
/// update at position `i` has id `i + 1` and there are `n` of them.
pub open spec fn fetch_start(offset: i64, n: int) -> int {
    if offset <= 1 {
        0
    } else if offset - 1 >= n {
        n
    } else {
        offset - 1
    }
}

} // verus!
