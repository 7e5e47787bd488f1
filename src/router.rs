use crate::api::Update;
use vstd::multiset::Multiset;
use vstd::prelude::*;

verus! {

broadcast use vstd::seq_lib::group_to_multiset_ensures;

/// Where the poll loop stands.
#[derive(Clone, Copy, Debug, PartialEq, Eq, Structural)]
pub enum Phase {
    /// Built, not started.
    Idle,
    /// Waiting for a batch of updates, or for a shutdown signal.
    Polling,
    /// Handing a batch to the handlers.
    Dispatching,
    /// Shutdown was asked for while a batch was being handled.
    ShuttingDown,
    /// Stopped for good.
    Stopped,
}

/// A failure of the fetch call.
#[derive(Clone, Copy, Debug, PartialEq, Eq, Structural)]
pub enum TransportError {
    /// Network failure or timeout: the same fetch is tried again.
    Transient,
    /// Malformed response or failure status: handled as an empty batch.
    Protocol,
}

/// What the loop is to do next.
#[derive(Debug)]
pub enum Command {
    /// Fetch the updates from `offset` on, waiting up to `timeout_s` seconds.
    Fetch { offset: i64, timeout_s: u64 },
    /// Wait a short fixed time, then fetch from `offset` on.
    RetryAfterBackoff { offset: i64, timeout_s: u64 },
    /// Hand these updates to the handler chain, one at a time, in this order.
    Dispatch(Vec<Update>),
    /// Tell every party waiting for shutdown that the loop has stopped.
    NotifyStopped,
    /// Nothing to do.
    Nothing,
}

/// The loop's state as plain values.
#[derive(Clone, Copy, Debug, PartialEq, Eq, Structural)]
pub struct RouterState {
    pub phase: Phase,
    /// Lowest update id not yet handled.
    pub offset: i64,
    /// Offset that takes effect once the batch in hand is dispatched.
    pub next_offset: i64,
    pub poll_timeout_s: u64,
    pub shutdown_requested: bool,
    /// Whether the stop has been announced.
    pub notified: bool,
}

impl RouterState {
    /// The stop is announced exactly when the loop has stopped.
    pub open spec fn wf(self) -> bool {
        (self.phase == Phase::Stopped) == self.notified
    }
}

/// Updates in ascending id order.
pub open spec fn sorted_by_id(s: Seq<Update>) -> bool {
    forall|i: int, j: int| 0 <= i < j < s.len() ==> s[i].update_id <= s[j].update_id
}

/// `m` is the largest id in `s`.
pub open spec fn is_max_id(s: Seq<Update>, m: i64) -> bool {
    &&& exists|i: int| 0 <= i < s.len() && s[i].update_id == m
    &&& forall|i: int| 0 <= i < s.len() ==> s[i].update_id <= m
}

/// The state once a non-empty batch whose largest id is `m` is in hand.
pub open spec fn after_batch(s: RouterState, m: i64) -> RouterState {
    RouterState { phase: Phase::Dispatching, next_offset: (m + 1) as i64, ..s }
}

/// The state once the batch in hand is dispatched.
pub open spec fn after_dispatch(s: RouterState) -> RouterState {
    if s.phase == Phase::ShuttingDown {
        RouterState { phase: Phase::Stopped, offset: s.next_offset, notified: true, ..s }
    } else {
        RouterState { phase: Phase::Polling, offset: s.next_offset, ..s }
    }
}

/// The state after a shutdown signal, and whether the stop is announced now.
pub open spec fn after_shutdown(s: RouterState) -> (RouterState, bool) {
    if s.shutdown_requested || s.phase == Phase::Stopped {
        (s, false)
    } else if s.phase == Phase::Polling {
        (RouterState { phase: Phase::Stopped, shutdown_requested: true, notified: true, ..s }, true)
    } else if s.phase == Phase::Dispatching {
        (RouterState { phase: Phase::ShuttingDown, shutdown_requested: true, ..s }, false)
    } else {
        (RouterState { shutdown_requested: true, ..s }, false)
    }
}

/// Sorts a batch by ascending id.
pub fn sort_batch(batch: Vec<Update>) -> (r: Vec<Update>)
    ensures
        sorted_by_id(r@),
        r@.to_multiset() == batch@.to_multiset(),
{
    let mut rest = batch;
    let mut out: Vec<Update> = Vec::new();
    while rest.len() > 0
        invariant
            sorted_by_id(out@),
            out@.to_multiset().add(rest@.to_multiset()) == batch@.to_multiset(),
        decreases rest@.len(),
    {
        let ghost r0 = rest@;
        let x = rest.remove(0);
        proof {
            vstd::seq_lib::to_multiset_remove(r0, 0);
        }
        let mut p: usize = 0;
        while p < out.len() && out[p].update_id <= x.update_id
            invariant
                p <= out@.len(),
                forall|j: int| 0 <= j < p ==> out@[j].update_id <= x.update_id,
            decreases out@.len() - p,
        {
            p = p + 1;
        }
        let ghost o0 = out@;
        let ghost xv = x;
        out.insert(p, x);
        proof {
            vstd::seq_lib::to_multiset_insert(o0, p as int, xv);
            assert(out@.to_multiset().add(rest@.to_multiset()) =~= batch@.to_multiset());
            assert forall|i: int, j: int| 0 <= i < j < out@.len() implies out@[i].update_id
                <= out@[j].update_id by {
                if j < p {
                } else if j == p {
                } else if i < p {
                    assert(out@[i] == o0[i]);
                    assert(out@[j] == o0[j - 1]);
                    assert(o0[p as int].update_id > xv.update_id || p == o0.len());
                } else if i == p {
                    assert(out@[j] == o0[j - 1]);
                } else {
                }
            }
        }
    }
    assert(rest@.to_multiset() =~= Multiset::empty());
    assert(out@.to_multiset() =~= batch@.to_multiset());
    out
}

/// The decisions of the long-poll loop: what to fetch, what to dispatch,
/// where the offset goes, and when the loop stops.
pub struct Router {
    st: RouterState,
}

/// Poll timeout used unless another is set.
pub const DEFAULT_POLL_TIMEOUT_S: u64 = 60;

impl Router {
    pub closed spec fn view(&self) -> RouterState {
        self.st
    }

    /// A loop that has not started, at offset zero.
    pub fn new() -> (r: Self)
        ensures
            r@.wf(),
            r@ == (RouterState {
                phase: Phase::Idle,
                offset: 0,
                next_offset: 0,
                poll_timeout_s: DEFAULT_POLL_TIMEOUT_S,
                shutdown_requested: false,
                notified: false,
            }),
    {
        Router {
            st: RouterState {
                phase: Phase::Idle,
                offset: 0,
                next_offset: 0,
                poll_timeout_s: DEFAULT_POLL_TIMEOUT_S,
                shutdown_requested: false,
                notified: false,
            },
        }
    }

    /// The same loop with its poll timeout set to `timeout_s` seconds.
    pub fn with_poll_timeout_s(self, timeout_s: u64) -> (r: Self)
        ensures
            r@ == (RouterState { poll_timeout_s: timeout_s, ..self@ }),
            self@.wf() ==> r@.wf(),
    {
        Router { st: RouterState { poll_timeout_s: timeout_s, ..self.st } }
    }

    /// The offset of the next fetch.
    pub fn offset(&self) -> (r: i64)
        ensures
            r == self@.offset,
    {
        self.st.offset
    }

    /// The current phase.
    pub fn phase(&self) -> (r: Phase)
        ensures
            r == self@.phase,
    {
        self.st.phase
    }

    /// Starts the loop: the first fetch, or the stop when shutdown was
    /// asked for before the start.
    pub fn start(&mut self) -> (c: Command)
        requires
            old(self)@.phase == Phase::Idle,
            old(self)@.wf(),
        ensures
            final(self)@.wf(),
            old(self)@.shutdown_requested ==> {
                &&& final(self)@ == (RouterState { phase: Phase::Stopped, notified: true, ..old(self)@ })
                &&& c is NotifyStopped
            },
            !old(self)@.shutdown_requested ==> {
                &&& final(self)@ == (RouterState { phase: Phase::Polling, ..old(self)@ })
                &&& c matches Command::Fetch { offset, timeout_s }
                &&& offset == old(self)@.offset && timeout_s == old(self)@.poll_timeout_s
            },
    {
        if self.st.shutdown_requested {
            self.st = RouterState { phase: Phase::Stopped, notified: true, ..self.st };
            Command::NotifyStopped
        } else {
            self.st = RouterState { phase: Phase::Polling, ..self.st };
            Command::Fetch { offset: self.st.offset, timeout_s: self.st.poll_timeout_s }
        }
    }

    /// Takes in the result of a fetch. A non-empty batch is dispatched in
    /// ascending id order, and the offset moves past its largest id once it
    /// is dispatched; an empty batch or a protocol error fetches again from
    /// the same offset; a transient error retries it after a backoff.
    pub fn on_fetch(&mut self, res: Result<Vec<Update>, TransportError>) -> (c: Command)
        requires
            old(self)@.phase == Phase::Polling,
            old(self)@.wf(),
            res matches Ok(b) ==> forall|i: int| 0 <= i < b@.len()
                ==> old(self)@.offset <= #[trigger] b@[i].update_id < i64::MAX,
        ensures
            final(self)@.wf(),
            final(self)@.next_offset > old(self)@.offset || final(self)@ == old(self)@,
            match res {
                Ok(b) => if b@.len() > 0 {
                    &&& exists|m: i64| is_max_id(b@, m) && final(self)@ == after_batch(old(self)@, m)
                    &&& c matches Command::Dispatch(s)
                    &&& sorted_by_id(s@) && s@.to_multiset() == b@.to_multiset()
                } else {
                    &&& final(self)@ == old(self)@
                    &&& c matches Command::Fetch { offset, timeout_s }
                    &&& offset == old(self)@.offset && timeout_s == old(self)@.poll_timeout_s
                },
                Err(TransportError::Protocol) => {
                    &&& final(self)@ == old(self)@
                    &&& c matches Command::Fetch { offset, timeout_s }
                    &&& offset == old(self)@.offset && timeout_s == old(self)@.poll_timeout_s
                },
                Err(TransportError::Transient) => {
                    &&& final(self)@ == old(self)@
                    &&& c matches Command::RetryAfterBackoff { offset, timeout_s }
                    &&& offset == old(self)@.offset && timeout_s == old(self)@.poll_timeout_s
                },
            },
    {
        match res {
            Ok(b) => {
                if b.len() == 0 {
                    Command::Fetch { offset: self.st.offset, timeout_s: self.st.poll_timeout_s }
                } else {
                    let ghost bv = b@;
                    let s = sort_batch(b);
                    assert(s@.len() == bv.len()) by {
                        assert(s@.to_multiset().len() == bv.to_multiset().len());
                    }
                    let m = s[s.len() - 1].update_id;
                    proof {
                        let last = s@[s@.len() - 1];
                        assert(s@.to_multiset().contains(last));
                        assert(bv.contains(last));
                        assert forall|i: int| 0 <= i < bv.len() implies bv[i].update_id <= m by {
                            assert(bv.to_multiset().contains(bv[i]));
                            assert(s@.contains(bv[i]));
                            let j = choose|j: int| 0 <= j < s@.len() && s@[j] == bv[i];
                            assert(s@[j].update_id <= s@[s@.len() - 1].update_id);
                        }
                        assert(is_max_id(bv, m));
                    }
                    self.st = RouterState { phase: Phase::Dispatching, next_offset: m + 1, ..self.st };
                    Command::Dispatch(s)
                }
            },
            Err(TransportError::Protocol) => {
                Command::Fetch { offset: self.st.offset, timeout_s: self.st.poll_timeout_s }
            },
            Err(TransportError::Transient) => {
                Command::RetryAfterBackoff { offset: self.st.offset, timeout_s: self.st.poll_timeout_s }
            },
        }
    }

    /// The batch in hand has been dispatched: the offset moves on, and the
    /// loop fetches again or, when shutdown was asked for meanwhile, stops.
    pub fn on_dispatched(&mut self) -> (c: Command)
        requires
            old(self)@.phase == Phase::Dispatching || old(self)@.phase == Phase::ShuttingDown,
            old(self)@.wf(),
        ensures
            final(self)@.wf(),
            final(self)@ == after_dispatch(old(self)@),
            old(self)@.phase == Phase::ShuttingDown ==> c is NotifyStopped,
            old(self)@.phase == Phase::Dispatching ==> (c matches Command::Fetch { offset, timeout_s }
                && offset == old(self)@.next_offset && timeout_s == old(self)@.poll_timeout_s),
    {
        if self.st.phase == Phase::ShuttingDown {
            self.st = RouterState { phase: Phase::Stopped, offset: self.st.next_offset, notified: true, ..self.st };
            Command::NotifyStopped
        } else {
            self.st = RouterState { phase: Phase::Polling, offset: self.st.next_offset, ..self.st };
            Command::Fetch { offset: self.st.offset, timeout_s: self.st.poll_timeout_s }
        }
    }

    /// A shutdown signal. While polling the loop stops at once; while
    /// dispatching it stops once the batch is done; before the start it
    /// stops at the start; any later signal changes nothing.
    pub fn request_shutdown(&mut self) -> (c: Command)
        requires
            old(self)@.wf(),
        ensures
            final(self)@.wf(),
            final(self)@ == after_shutdown(old(self)@).0,
            after_shutdown(old(self)@).1 ==> c is NotifyStopped,
            !after_shutdown(old(self)@).1 ==> c is Nothing,
    {
        if self.st.shutdown_requested || self.st.phase == Phase::Stopped {
            Command::Nothing
        } else if self.st.phase == Phase::Polling {
            self.st = RouterState { phase: Phase::Stopped, shutdown_requested: true, notified: true, ..self.st };
            Command::NotifyStopped
        } else if self.st.phase == Phase::Dispatching {
            self.st = RouterState { phase: Phase::ShuttingDown, shutdown_requested: true, ..self.st };
            Command::Nothing
        } else {
            self.st = RouterState { shutdown_requested: true, ..self.st };
            Command::Nothing
        }
    }
}

/// Once a non-empty batch whose largest id is `m` has been dispatched, the
/// next fetch starts at `m + 1`.
pub proof fn lemma_offset_advances(s: RouterState, m: i64)
    requires
        s.phase == Phase::Polling,
        m < i64::MAX,
    ensures
        after_dispatch(after_batch(s, m)).offset == m + 1,
        after_dispatch(after_batch(s, m)).phase == Phase::Polling,
{
}

/// A second shutdown signal changes nothing and announces nothing: of two
/// signals, at most the first announces the stop.
pub proof fn lemma_shutdown_idempotent(s: RouterState)
    ensures
        after_shutdown(after_shutdown(s).0).0 == after_shutdown(s).0,
        !after_shutdown(after_shutdown(s).0).1,
{
}

} // verus!
