use crate::api::{same_update, text_of, Message, Update};
use crate::chain::ChainRun;
use crate::chat::{counter_text, handle_chat_event, pong_handler, Action, ChatState, Error, Event, MessageEvent, Reply};
use crate::fake::{fetch_start, FakeServer};
use crate::router::{sorted_by_id, Command, Phase, Router, RouterState};
use crate::store::ChatStateStore;
use vstd::prelude::*;

verus! {

/// The counter of chat `c` in `m`, zero when it has none.
pub open spec fn count_of(m: Map<i64, ChatState>, c: i64) -> u64 {
    if m.contains_key(c) { m[c].counter } else { 0 }
}

/// The states after the counting handler has seen a new message of chat `c`.
pub open spec fn after_pong(m: Map<i64, ChatState>, c: i64) -> Map<i64, ChatState> {
    m.insert(c, ChatState { counter: (count_of(m, c) + 1) as u64 })
}

/// What the counting handler reads of an update: whether it is new, its
/// chat, and its text.
pub open spec fn pong_input(u: Update) -> (bool, i64, Seq<char>) {
    (u.message is New, u.message.message_spec().chat.id, text_of(u.message.message_spec()))
}

/// The effect of one update on the states, the replies sent so far (chat
/// and text) and the next message id of the server.
pub open spec fn pong_step(
    s: (Map<i64, ChatState>, Seq<(i64, Seq<char>)>, i64),
    x: (bool, i64, Seq<char>),
) -> (Map<i64, ChatState>, Seq<(i64, Seq<char>)>, i64) {
    let n = count_of(s.0, x.1);
    if !x.0 || n == u64::MAX {
        s
    } else if s.2 == i64::MAX {
        (after_pong(s.0, x.1), s.1, s.2)
    } else {
        (after_pong(s.0, x.1), s.1.push((x.1, counter_text("pong"@, n + 1, x.2))), (s.2 + 1) as i64)
    }
}

/// The effect of a sequence of updates, handled one at a time in order.
pub open spec fn pong_run(
    s: (Map<i64, ChatState>, Seq<(i64, Seq<char>)>, i64),
    xs: Seq<(bool, i64, Seq<char>)>,
) -> (Map<i64, ChatState>, Seq<(i64, Seq<char>)>, i64)
    decreases xs.len(),
{
    if xs.len() == 0 {
        s
    } else {
        pong_step(pong_run(s, xs.drop_last()), xs.last())
    }
}

/// `new` is `old` followed by one message for each reply, in order, each to
/// the reply's chat and with the reply's text.
pub open spec fn extends_with(old: Seq<Message>, new: Seq<Message>, reps: Seq<(i64, Seq<char>)>) -> bool {
    &&& new.len() == old.len() + reps.len()
    &&& new.subrange(0, old.len() as int) == old
    &&& forall|k: int| 0 <= k < reps.len() ==> (#[trigger] new[old.len() + k]).chat.id == reps[k].0
        && text_of(new[old.len() + k]) == reps[k].1
}

proof fn lemma_extends_trans(
    a: Seq<Message>,
    b: Seq<Message>,
    c: Seq<Message>,
    r: Seq<(i64, Seq<char>)>,
    d: Seq<(i64, Seq<char>)>,
)
    requires
        extends_with(a, b, r),
        extends_with(b, c, d),
    ensures
        extends_with(a, c, r + d),
{
    assert(c.subrange(0, a.len() as int) =~= b.subrange(0, a.len() as int));
    assert forall|k: int| 0 <= k < (r + d).len() implies (#[trigger] c[a.len() + k]).chat.id == (r + d)[k].0
        && text_of(c[a.len() + k]) == (r + d)[k].1 by {
        if k < r.len() {
            assert(c[a.len() + k] == c.subrange(0, b.len() as int)[a.len() + k]);
            assert(b[a.len() + k].chat.id == r[k].0);
        } else {
            let j = k - r.len();
            assert(c[b.len() + j].chat.id == d[j].0);
        }
    }
}

/// Two sorted batches with the same updates, one of them with distinct ids,
/// are the same sequence.
proof fn lemma_sorted_unique(r: Seq<Update>, b: Seq<Update>)
    requires
        sorted_by_id(r),
        forall|i: int, j: int| 0 <= i < j < b.len() ==> b[i].update_id < b[j].update_id,
        r.to_multiset() == b.to_multiset(),
    ensures
        r == b,
    decreases b.len(),
{
    broadcast use vstd::seq_lib::group_to_multiset_ensures;
    vstd::seq_lib::to_multiset_len(r);
    vstd::seq_lib::to_multiset_len(b);
    if b.len() > 0 {
        let rl = r.last();
        let bl = b.last();
        assert(r.to_multiset().contains(bl));
        assert(r.contains(bl));
        assert(b.contains(rl)) by {
            assert(b.to_multiset().contains(rl));
        }
        let i = choose|i: int| 0 <= i < r.len() && r[i] == bl;
        let j = choose|j: int| 0 <= j < b.len() && b[j] == rl;
        assert(rl.update_id >= bl.update_id);
        if j < b.len() - 1 {
            assert(b[j].update_id < bl.update_id);
        }
        assert(j == b.len() - 1);
        assert(rl == bl);
        vstd::seq_lib::to_multiset_remove(r, r.len() - 1);
        vstd::seq_lib::to_multiset_remove(b, b.len() - 1);
        assert(r.remove(r.len() - 1) =~= r.drop_last());
        assert(b.remove(b.len() - 1) =~= b.drop_last());
        lemma_sorted_unique(r.drop_last(), b.drop_last());
        assert(r =~= r.drop_last().push(rl));
        assert(b =~= b.drop_last().push(bl));
    }
}

/// Chats do not see each other's state: a message of chat `x` leaves the
/// count of every other chat `y` as it was, and handling a message of `x`
/// and one of `y` in either order gives the same states, as if each chat
/// had run alone.
pub proof fn lemma_chats_independent(m: Map<i64, ChatState>, x: i64, y: i64)
    requires
        x != y,
    ensures
        count_of(after_pong(m, x), y) == count_of(m, y),
        after_pong(after_pong(m, x), y) == after_pong(after_pong(m, y), x),
{
    assert(after_pong(after_pong(m, x), y) =~= after_pong(after_pong(m, y), x));
}

/// The inputs of chat `c` among `xs`, in order.
pub open spec fn inputs_of_chat(xs: Seq<(bool, i64, Seq<char>)>, c: i64) -> Seq<(bool, i64, Seq<char>)>
    decreases xs.len(),
{
    if xs.len() == 0 {
        Seq::empty()
    } else {
        let prev = inputs_of_chat(xs.drop_last(), c);
        if xs.last().1 == c { prev.push(xs.last()) } else { prev }
    }
}

/// The texts of the replies to chat `c` among `reps`, in order.
pub open spec fn replies_to(reps: Seq<(i64, Seq<char>)>, c: i64) -> Seq<Seq<char>>
    decreases reps.len(),
{
    if reps.len() == 0 {
        Seq::empty()
    } else {
        let prev = replies_to(reps.drop_last(), c);
        if reps.last().0 == c { prev.push(reps.last().1) } else { prev }
    }
}

proof fn lemma_run_ids(
    s: (Map<i64, ChatState>, Seq<(i64, Seq<char>)>, i64),
    xs: Seq<(bool, i64, Seq<char>)>,
)
    ensures
        s.2 <= pong_run(s, xs).2 <= s.2 + xs.len(),
    decreases xs.len(),
{
    if xs.len() > 0 {
        lemma_run_ids(s, xs.drop_last());
    }
}

proof fn lemma_inputs_of_chat_len(xs: Seq<(bool, i64, Seq<char>)>, c: i64)
    ensures
        inputs_of_chat(xs, c).len() <= xs.len(),
    decreases xs.len(),
{
    if xs.len() > 0 {
        lemma_inputs_of_chat_len(xs.drop_last(), c);
    }
}

/// Interleaving chats is not observable by any one chat: handling a
/// sequence of updates of many chats leaves chat `c` with the same count,
/// and sends it the same replies in the same order, as handling only
/// chat `c`'s updates would (while the server has message ids to spare).
pub proof fn lemma_interleaving_unobservable(
    s: (Map<i64, ChatState>, Seq<(i64, Seq<char>)>, i64),
    xs: Seq<(bool, i64, Seq<char>)>,
    c: i64,
)
    requires
        s.2 + xs.len() < i64::MAX,
    ensures
        count_of(pong_run(s, xs).0, c) == count_of(pong_run(s, inputs_of_chat(xs, c)).0, c),
        replies_to(pong_run(s, xs).1, c) == replies_to(pong_run(s, inputs_of_chat(xs, c)).1, c),
    decreases xs.len(),
{
    if xs.len() > 0 {
        let ys = xs.drop_last();
        let a = xs.last();
        lemma_interleaving_unobservable(s, ys, c);
        lemma_run_ids(s, ys);
        lemma_inputs_of_chat_len(ys, c);
        lemma_run_ids(s, inputs_of_chat(ys, c));
        let r = pong_run(s, ys);
        let q = pong_run(s, inputs_of_chat(ys, c));
        if a.1 == c {
            let ic = inputs_of_chat(xs, c);
            assert(ic.drop_last() =~= inputs_of_chat(ys, c));
            assert(pong_run(s, ic) == pong_step(q, a));
            let rs = pong_step(r, a);
            let qs = pong_step(q, a);
            if a.0 && count_of(r.0, c) != u64::MAX {
                assert(rs.1.drop_last() =~= r.1);
                assert(qs.1.drop_last() =~= q.1);
            }
        } else {
            let rs = pong_step(r, a);
            if a.0 && count_of(r.0, a.1) != u64::MAX && r.2 != i64::MAX {
                assert(rs.1.drop_last() =~= r.1);
            }
        }
    }
}

/// Hands one update to a chain made of the counting handler, whose state
/// for each chat is in `store`, and sends its reply through `server`.
/// Only the state of the update's own chat changes. A chat whose count is
/// at its largest value gets an error and no reply; when the server has no
/// message id left, the count moves on and the reply is not sent.
pub fn dispatch_pong(u: &Update, store: &mut ChatStateStore<ChatState>, server: &mut FakeServer) -> (r: Result<(), Error>)
    requires
        old(store).wf(),
        old(server).wf(),
    ensures
        final(store).wf(),
        final(server).wf(),
        final(server).updates() == old(server).updates(),
        final(server).next_chat_id() == old(server).next_chat_id(),
        ({
            let st = pong_step((old(store)@, Seq::empty(), old(server).next_message_id()), pong_input(*u));
            &&& final(store)@ == st.0
            &&& final(server).next_message_id() == st.2
            &&& extends_with(old(server).outbox(), final(server).outbox(), st.1)
        }),
        final(store)@.remove(u.message.message_spec().chat.id) == old(store)@.remove(u.message.message_spec().chat.id),
        ({
            let c = u.message.message_spec().chat.id;
            let n = count_of(old(store)@, c);
            (u.message is New && n < u64::MAX && old(server).next_message_id() < i64::MAX) ==> {
                &&& r is Ok
                &&& final(store)@ == after_pong(old(store)@, c)
                &&& final(server).outbox().len() == old(server).outbox().len() + 1
                &&& final(server).outbox().drop_last() == old(server).outbox()
                &&& final(server).outbox().last().chat.id == c
                &&& text_of(final(server).outbox().last()) == counter_text(
                    "pong"@,
                    n + 1,
                    text_of(u.message.message_spec()),
                )
            }
        }),
        ({
            let c = u.message.message_spec().chat.id;
            let n = count_of(old(store)@, c);
            (u.message is New && n < u64::MAX && old(server).next_message_id() == i64::MAX) ==> {
                &&& r matches Err(Error::Failed(msg)) && msg@ == "Send failed"@
                &&& final(store)@ == after_pong(old(store)@, c)
                &&& final(server).outbox() == old(server).outbox()
            }
        }),
        (u.message is New && count_of(old(store)@, u.message.message_spec().chat.id) == u64::MAX) ==> {
            &&& r matches Err(Error::Failed(msg)) && msg@ == "Counter overflow"@
            &&& final(store)@ == old(store)@
            &&& final(server).outbox() == old(server).outbox()
        },
        u.message is Edited ==> {
            &&& r matches Err(Error::Failed(msg)) && msg@ == "Unhandled update"@
            &&& final(store)@ == old(store)@
            &&& final(server).outbox() == old(server).outbox()
        },
{
    let chat_id = u.message.message().chat.id;
    proof {
        assert(old(server).outbox().subrange(0, old(server).outbox().len() as int) =~= old(server).outbox());
    }
    let mut state = store.take_or(chat_id, ChatState { counter: 0 });
    if matches!(u.message, MessageEvent::New(_)) && state.counter == u64::MAX {
        return Err(Error::Failed(String::from_str("Counter overflow")));
    }
    let e = Event { message: match &u.message {
        MessageEvent::New(m) => MessageEvent::New(m.duplicate()),
        MessageEvent::Edited(m) => MessageEvent::Edited(m.duplicate()),
    } };
    let outcome = pong_handler(&e, &mut state);
    if matches!(u.message, MessageEvent::New(_)) {
        store.set(chat_id, state);
    }
    let mut run = ChainRun::new(1);
    let reply = run.record(&outcome);
    match reply {
        Some(Reply::Text(t)) => {
            if !server.has_room() {
                return Err(Error::Failed(String::from_str("Send failed")));
            }
            let _sent = server.send_message(chat_id, t);
            assert(server.outbox().subrange(0, old(server).outbox().len() as int) =~= server.outbox().drop_last());
        },
        Some(Reply::Sticker(t)) => {
            if !server.has_room() {
                return Err(Error::Failed(String::from_str("Send failed")));
            }
            let _sent = server.send_sticker(chat_id, t);
            assert(server.outbox().subrange(0, old(server).outbox().len() as int) =~= server.outbox().drop_last());
        },
        None => {},
    }
    match outcome {
        Ok(_) => Ok(()),
        Err(e) => Err(e),
    }
}

/// Hands an event to the uptime handler with the state of the event's own
/// chat, kept in `store`; `uptime` is what the system reported. Only that
/// chat's state changes. A chat whose count is at its largest value gets an
/// error and keeps its state.
pub fn dispatch_uptime(e: &Event, store: &mut ChatStateStore<ChatState>, uptime: Option<String>) -> (r: Result<Action, Error>)
    requires
        old(store).wf(),
    ensures
        final(store).wf(),
        ({
            let c = e.message.message_spec().chat.id;
            let n = count_of(old(store)@, c);
            &&& (e.message is New && n < u64::MAX) ==> {
                &&& final(store)@ == after_pong(old(store)@, c)
                &&& match uptime {
                    Some(u) => r matches Ok(Action::ReplyText(t))
                        && t@ == counter_text("uptime"@, n + 1, u@),
                    None => r matches Err(Error::Failed(msg)) && msg@ == "Failed to get uptime"@,
                }
            }
            &&& (e.message is New && n == u64::MAX) ==> {
                &&& r matches Err(Error::Failed(msg)) && msg@ == "Counter overflow"@
                &&& final(store)@ == old(store)@
            }
            &&& e.message is Edited ==> {
                &&& r matches Err(Error::Failed(msg)) && msg@ == "Unhandled update"@
                &&& final(store)@ == old(store)@
            }
        }),
{
    let chat_id = e.message.message().chat.id;
    let mut state = store.take_or(chat_id, ChatState { counter: 0 });
    match &e.message {
        MessageEvent::New(_) => {
            if state.counter == u64::MAX {
                return Err(Error::Failed(String::from_str("Counter overflow")));
            }
            let r = handle_chat_event(e, &mut state, uptime);
            store.set(chat_id, state);
            r
        },
        MessageEvent::Edited(_) => handle_chat_event(e, &mut state, uptime),
    }
}

/// What one turn of the loop does when the router is at `offset` and the
/// server holds `updates`: the updates from `offset` on, in ascending id
/// order, each handled by the counting handler.
pub open spec fn turn_inputs(updates: Seq<Update>, offset: i64) -> Seq<(bool, i64, Seq<char>)> {
    updates.subrange(fetch_start(offset, updates.len() as int), updates.len() as int).map_values(
        |u: Update| pong_input(u),
    )
}

/// The offset after one turn: past the last update when any was fetched.
pub open spec fn turn_offset(updates: Seq<Update>, offset: i64) -> i64 {
    if fetch_start(offset, updates.len() as int) < updates.len() {
        (updates.len() + 1) as i64
    } else {
        offset
    }
}

/// One turn of the loop: fetch from the router's offset, hand each update
/// of the batch to `dispatch_pong` in ascending id order, and move the
/// offset past the largest id fetched. Returns the next fetch.
pub fn poll_once(router: &mut Router, store: &mut ChatStateStore<ChatState>, server: &mut FakeServer) -> (c: Command)
    requires
        old(router)@.phase == Phase::Polling,
        old(router)@.wf(),
        old(store).wf(),
        old(server).wf(),
    ensures
        final(store).wf(),
        final(server).wf(),
        final(server).updates() == old(server).updates(),
        final(server).next_chat_id() == old(server).next_chat_id(),
        ({
            let xs = turn_inputs(old(server).updates(), old(router)@.offset);
            let st = pong_run((old(store)@, Seq::empty(), old(server).next_message_id()), xs);
            &&& final(store)@ == st.0
            &&& final(server).next_message_id() == st.2
            &&& extends_with(old(server).outbox(), final(server).outbox(), st.1)
        }),
        ({
            let off = turn_offset(old(server).updates(), old(router)@.offset);
            &&& final(router)@ == (RouterState {
                offset: off,
                next_offset: if off == old(router)@.offset { old(router)@.next_offset } else { off },
                ..old(router)@
            })
            &&& c matches Command::Fetch { offset, timeout_s } && offset == off
                && timeout_s == old(router)@.poll_timeout_s
        }),
{
    let batch = server.fetch_updates(router.offset());
    let ghost b = batch@;
    let ghost n = server.updates().len();
    let ghost xs = turn_inputs(old(server).updates(), old(router)@.offset);
    let ghost init = (old(store)@, Seq::<(i64, Seq<char>)>::empty(), old(server).next_message_id());
    proof {
        let st0 = fetch_start(old(router)@.offset, n as int);
        assert(b.map_values(|u: Update| pong_input(u)) =~= xs) by {
            assert forall|k: int| 0 <= k < b.len() implies pong_input(b[k]) == pong_input(
                old(server).updates()[st0 + k],
            ) by {
                assert(same_update(b[k], old(server).updates()[st0 + k]));
            }
        }
        assert(pong_run(init, xs.take(0)) == init);
        assert(old(server).outbox().subrange(0, old(server).outbox().len() as int) =~= old(server).outbox());
    }
    let cmd = router.on_fetch(Ok(batch));
    match cmd {
        Command::Dispatch(s) => {
            proof {
                let m = choose|m: i64| crate::router::is_max_id(b, m) && router@ == crate::router::after_batch(old(router)@, m);
                let i = choose|i: int| 0 <= i < b.len() && b[i].update_id == m;
                assert(b[b.len() - 1].update_id <= m);
                assert(m == n);
                lemma_sorted_unique(s@, b);
            }
            let mut i: usize = 0;
            while i < s.len()
                invariant
                    i <= s@.len(),
                    s@ == b,
                    b.map_values(|u: Update| pong_input(u)) == xs,
                    store.wf(),
                    server.wf(),
                    server.updates() == old(server).updates(),
                    server.next_chat_id() == old(server).next_chat_id(),
                    ({
                        let st = pong_run(init, xs.take(i as int));
                        &&& store@ == st.0
                        &&& server.next_message_id() == st.2
                        &&& extends_with(old(server).outbox(), server.outbox(), st.1)
                    }),
                decreases s@.len() - i,
            {
                let ghost before = pong_run(init, xs.take(i as int));
                let ghost ob = server.outbox();
                let _outcome = dispatch_pong(&s[i], store, server);
                proof {
                    let step = pong_step((before.0, Seq::empty(), before.2), pong_input(s@[i as int]));
                    assert(xs.take(i + 1).drop_last() =~= xs.take(i as int));
                    assert(xs.take(i + 1).last() == pong_input(s@[i as int]));
                    let full = pong_step(before, pong_input(s@[i as int]));
                    assert(full.1 =~= before.1 + step.1);
                    lemma_extends_trans(old(server).outbox(), ob, server.outbox(), before.1, step.1);
                }
                i = i + 1;
            }
            proof {
                assert(xs.take(b.len() as int) =~= xs);
            }
            router.on_dispatched()
        },
        other => {
            proof {
                assert(xs =~= Seq::<(bool, i64, Seq<char>)>::empty());
            }
            other
        },
    }
}

/// Updates enqueued before the loop starts are not lost: the first turn of
/// a new router, at offset zero, hands every update the server holds to
/// the handler, in order.
pub proof fn lemma_no_update_lost_before_start(updates: Seq<Update>)
    ensures
        turn_inputs(updates, 0) == updates.map_values(|u: Update| pong_input(u)),
{
    assert(updates.subrange(0, updates.len() as int) =~= updates);
}

} // verus!
