use crate::chat::{Action, Error, Reply};
use vstd::prelude::*;

verus! {

/// Whether a handler's outcome ends the chain: `Done`, or a failure.
pub open spec fn stops(o: Result<Action, Error>) -> bool {
    match o {
        Ok(a) => a is Done,
        Err(_) => true,
    }
}

/// How many handlers run, from position `i` on, when handler `j` would
/// return `outs[j]`.
pub open spec fn invoked_from(outs: Seq<Result<Action, Error>>, i: nat) -> nat
    decreases outs.len() - i,
{
    if i >= outs.len() {
        i
    } else if stops(outs[i as int]) {
        i + 1
    } else {
        invoked_from(outs, i + 1)
    }
}

/// How many handlers of a chain run for one event, when handler `j` would
/// return `outs[j]`.
pub open spec fn invoked(outs: Seq<Result<Action, Error>>) -> nat {
    invoked_from(outs, 0)
}

/// A reply as kind and content: `true` for text, `false` for a sticker.
pub open spec fn reply_view(r: Reply) -> (bool, Seq<char>) {
    match r {
        Reply::Text(t) => (true, t@),
        Reply::Sticker(t) => (false, t@),
    }
}

/// The replies that the first `n` outcomes ask for, in order.
pub open spec fn replies_of(outs: Seq<Result<Action, Error>>, n: nat) -> Seq<(bool, Seq<char>)>
    decreases n,
{
    if n == 0 {
        Seq::empty()
    } else {
        let prev = replies_of(outs, (n - 1) as nat);
        match outs[n - 1] {
            Ok(Action::ReplyText(t)) => prev.push((true, t@)),
            Ok(Action::ReplySticker(t)) => prev.push((false, t@)),
            _ => prev,
        }
    }
}

/// The run of a handler chain over one event, one handler at a time.
pub struct ChainRun {
    /// Number of handlers in the chain.
    pub len: usize,
    /// Position of the next handler to run.
    pub pos: usize,
    /// Whether a handler has ended the chain.
    pub stopped: bool,
    /// Position of the handler that failed, if one did.
    pub failed: Option<usize>,
}

impl ChainRun {
    /// Whether another handler is to run.
    pub open spec fn active(&self) -> bool {
        !self.stopped && self.pos < self.len
    }

    /// A run over a chain of `len` handlers, before the first one.
    pub fn new(len: usize) -> (r: Self)
        ensures
            r.len == len,
            r.pos == 0,
            !r.stopped,
            r.failed is None,
    {
        ChainRun { len, pos: 0, stopped: false, failed: None }
    }

    /// The position of the handler to run next, if any.
    pub fn next_handler(&self) -> (r: Option<usize>)
        ensures
            r == (if self.active() { Some(self.pos) } else { None::<usize> }),
    {
        if !self.stopped && self.pos < self.len {
            Some(self.pos)
        } else {
            None
        }
    }

    /// Takes in what the current handler returned, and gives the reply
    /// that is to be sent for it, if any.
    pub fn record(&mut self, o: &Result<Action, Error>) -> (r: Option<Reply>)
        requires
            old(self).active(),
        ensures
            final(self).len == old(self).len,
            final(self).stopped == stops(*o),
            final(self).pos == (if stops(*o) { old(self).pos } else { (old(self).pos + 1) as usize }),
            final(self).failed == (if o is Err { Some(old(self).pos) } else { old(self).failed }),
            match *o {
                Ok(Action::ReplyText(t)) => r matches Some(Reply::Text(u)) && u@ == t@,
                Ok(Action::ReplySticker(t)) => r matches Some(Reply::Sticker(u)) && u@ == t@,
                _ => r is None,
            },
    {
        match o {
            Ok(a) => {
                if a.continues() {
                    self.pos = self.pos + 1;
                } else {
                    self.stopped = true;
                }
                a.reply()
            },
            Err(_) => {
                self.stopped = true;
                self.failed = Some(self.pos);
                None
            },
        }
    }
}

/// What a chain did with one event.
pub struct ChainReport {
    /// How many handlers ran.
    pub invoked: usize,
    /// The replies asked for, in the order they are sent.
    pub replies: Vec<Reply>,
    /// Position of the handler that failed, if one did.
    pub failed: Option<usize>,
}

/// Runs a chain over one event where handler `j` returns `outs[j]`: the
/// handlers run in order until one returns `Done` or fails, and each reply
/// is sent before the next handler runs.
pub fn run_chain(outs: &Vec<Result<Action, Error>>) -> (r: ChainReport)
    ensures
        r.invoked == invoked(outs@),
        r.replies@.map_values(|x: Reply| reply_view(x)) == replies_of(outs@, invoked(outs@)),
        r.failed == (if invoked(outs@) > 0 && outs@[invoked(outs@) - 1] is Err {
            Some((invoked(outs@) - 1) as usize)
        } else {
            None::<usize>
        }),
{
    let mut run = ChainRun::new(outs.len());
    let mut replies: Vec<Reply> = Vec::new();
    while run.pos < outs.len() && !run.stopped
        invariant
            run.len == outs@.len(),
            run.pos <= outs@.len(),
            !run.stopped ==> invoked(outs@) == invoked_from(outs@, run.pos as nat),
            !run.stopped ==> run.failed is None,
            !run.stopped && run.pos > 0 ==> !stops(outs@[run.pos - 1]),
            run.stopped ==> invoked(outs@) == run.pos + 1 && run.pos < outs@.len(),
            run.stopped ==> run.failed == (if outs@[run.pos as int] is Err {
                Some(run.pos)
            } else {
                None::<usize>
            }),
            replies@.map_values(|x: Reply| reply_view(x)) == replies_of(
                outs@,
                if run.stopped { (run.pos + 1) as nat } else { run.pos as nat },
            ),
        decreases outs@.len() - run.pos, (if run.stopped { 0int } else { 1int }),
    {
        let i = run.pos;
        let rep = run.record(&outs[i]);
        match rep {
            Some(x) => {
                replies.push(x);
            },
            None => {},
        }
        assert(replies@.map_values(|x: Reply| reply_view(x)) =~= replies_of(outs@, (i + 1) as nat));
    }
    if !run.stopped {
        assert(invoked_from(outs@, run.pos as nat) == outs@.len());
    }
    ChainReport {
        invoked: if run.stopped { run.pos + 1 } else { run.pos },
        replies,
        failed: run.failed,
    }
}

/// A chain whose first handler returns `Done` runs no further handler and
/// sends nothing; one whose first handler returns `Next` and whose second
/// replies with a text runs both and sends that one text.
pub proof fn lemma_chain_short_circuit(first: Result<Action, Error>, second: Result<Action, Error>, t: String)
    ensures
        first matches Ok(Action::Done) ==> {
            &&& invoked(seq![first, second]) == 1
            &&& replies_of(seq![first, second], 1) == Seq::<(bool, Seq<char>)>::empty()
        },
        (first matches Ok(Action::Next) && second == Ok::<Action, Error>(Action::ReplyText(t))) ==> {
            &&& invoked(seq![first, second]) == 2
            &&& replies_of(seq![first, second], 2) == seq![(true, t@)]
        },
{
    let outs = seq![first, second];
    reveal_with_fuel(invoked_from, 3);
    reveal_with_fuel(replies_of, 3);
    if first matches Ok(Action::Next) && second == Ok::<Action, Error>(Action::ReplyText(t)) {
        assert(replies_of(outs, 2) =~= seq![(true, t@)]);
    }
}

} // verus!
