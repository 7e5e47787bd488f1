use vstd::prelude::*;

verus! {

/// Per-chat state cells of one handler, created on first use.
pub struct ChatStateStore<S> {
    chat_ids: Vec<i64>,
    states: Vec<S>,
}

/// The map held by the first `n` entries of parallel key and value lists.
pub open spec fn map_of<S>(keys: Seq<i64>, vals: Seq<S>, n: nat) -> Map<i64, S>
    decreases n,
{
    if n == 0 {
        Map::empty()
    } else {
        map_of(keys, vals, (n - 1) as nat).insert(keys[n - 1], vals[n - 1])
    }
}

proof fn lemma_map_of_dom<S>(keys: Seq<i64>, vals: Seq<S>, n: nat, k: i64)
    requires
        n <= keys.len(),
    ensures
        map_of(keys, vals, n).contains_key(k) <==> exists|i: int| 0 <= i < n && keys[i] == k,
    decreases n,
{
    if n > 0 {
        lemma_map_of_dom(keys, vals, (n - 1) as nat, k);
        if map_of(keys, vals, (n - 1) as nat).contains_key(k) {
            let i = choose|i: int| 0 <= i < n - 1 && keys[i] == k;
            assert(0 <= i < n && keys[i] == k);
        }
    }
}

proof fn lemma_map_of_at<S>(keys: Seq<i64>, vals: Seq<S>, n: nat, i: int)
    requires
        n <= keys.len(),
        0 <= i < n,
        forall|a: int, b: int| 0 <= a < b < keys.len() ==> keys[a] != keys[b],
    ensures
        map_of(keys, vals, n).contains_key(keys[i]),
        map_of(keys, vals, n)[keys[i]] == vals[i],
    decreases n,
{
    if i < n - 1 {
        lemma_map_of_at(keys, vals, (n - 1) as nat, i);
    }
}

proof fn lemma_map_of_update<S>(keys: Seq<i64>, vals: Seq<S>, n: nat, i: int, v: S)
    requires
        n <= keys.len(),
        n <= vals.len(),
        0 <= i < vals.len(),
        forall|a: int, b: int| 0 <= a < b < keys.len() ==> keys[a] != keys[b],
    ensures
        i < n ==> map_of(keys, vals.update(i, v), n) == map_of(keys, vals, n).insert(keys[i], v),
        i >= n ==> map_of(keys, vals.update(i, v), n) == map_of(keys, vals, n),
    decreases n,
{
    if n > 0 {
        lemma_map_of_update(keys, vals, (n - 1) as nat, i, v);
        if i < n - 1 {
            lemma_map_of_dom(keys, vals, (n - 1) as nat, keys[n - 1]);
            assert(map_of(keys, vals.update(i, v), n) =~= map_of(keys, vals, n).insert(keys[i], v));
        } else if i == n - 1 {
            assert(map_of(keys, vals.update(i, v), n) =~= map_of(keys, vals, n).insert(keys[i], v));
        }
    }
}

proof fn lemma_map_of_prefix<S>(keys: Seq<i64>, vals: Seq<S>, k2: Seq<i64>, v2: Seq<S>, n: nat)
    requires
        n <= keys.len(),
        n <= k2.len(),
        n <= vals.len(),
        n <= v2.len(),
        forall|j: int| 0 <= j < n ==> keys[j] == k2[j] && vals[j] == v2[j],
    ensures
        map_of(keys, vals, n) == map_of(k2, v2, n),
    decreases n,
{
    if n > 0 {
        lemma_map_of_prefix(keys, vals, k2, v2, (n - 1) as nat);
    }
}

impl<S> ChatStateStore<S> {
    /// Each chat id has at most one cell.
    pub closed spec fn wf(&self) -> bool {
        &&& self.chat_ids@.len() == self.states@.len()
        &&& forall|a: int, b: int|
            0 <= a < b < self.chat_ids@.len() ==> self.chat_ids@[a] != self.chat_ids@[b]
    }

    /// The state of each chat that has one.
    pub closed spec fn view(&self) -> Map<i64, S> {
        map_of(self.chat_ids@, self.states@, self.chat_ids@.len())
    }

    /// An empty store.
    pub fn new() -> (r: Self)
        ensures
            r.wf(),
            r@ == Map::<i64, S>::empty(),
    {
        ChatStateStore { chat_ids: Vec::new(), states: Vec::new() }
    }

    fn position(&self, chat_id: i64) -> (r: Option<usize>)
        requires
            self.wf(),
        ensures
            match r {
                Some(i) => i < self.chat_ids@.len() && self.chat_ids@[i as int] == chat_id,
                None => forall|j: int| 0 <= j < self.chat_ids@.len() ==> self.chat_ids@[j] != chat_id,
            },
    {
        let mut i: usize = 0;
        while i < self.chat_ids.len()
            invariant
                i <= self.chat_ids@.len(),
                forall|j: int| 0 <= j < i ==> self.chat_ids@[j] != chat_id,
            decreases self.chat_ids@.len() - i,
        {
            if self.chat_ids[i] == chat_id {
                return Some(i);
            }
            i = i + 1;
        }
        None
    }

    /// Whether `chat_id` has a state cell.
    pub fn contains(&self, chat_id: i64) -> (r: bool)
        requires
            self.wf(),
        ensures
            r == self@.contains_key(chat_id),
    {
        proof {
            lemma_map_of_dom(self.chat_ids@, self.states@, self.chat_ids@.len(), chat_id);
        }
        self.position(chat_id).is_some()
    }

    /// The state of `chat_id`, if it has one.
    pub fn get(&self, chat_id: i64) -> (r: Option<&S>)
        requires
            self.wf(),
        ensures
            match r {
                Some(s) => self@.contains_key(chat_id) && *s == self@[chat_id],
                None => !self@.contains_key(chat_id),
            },
    {
        proof {
            lemma_map_of_dom(self.chat_ids@, self.states@, self.chat_ids@.len(), chat_id);
        }
        match self.position(chat_id) {
            Some(i) => {
                proof {
                    lemma_map_of_at(self.chat_ids@, self.states@, self.chat_ids@.len(), i as int);
                }
                Some(&self.states[i])
            },
            None => None,
        }
    }

    /// Stores `state` as the state of `chat_id`; no other chat's state changes.
    pub fn set(&mut self, chat_id: i64, state: S)
        requires
            old(self).wf(),
        ensures
            final(self).wf(),
            final(self)@ == old(self)@.insert(chat_id, state),
    {
        match self.position(chat_id) {
            Some(i) => {
                proof {
                    lemma_map_of_update(self.chat_ids@, self.states@, self.chat_ids@.len(), i as int, state);
                }
                self.states.set(i, state);
            },
            None => {
                let ghost k0 = self.chat_ids@;
                let ghost v0 = self.states@;
                self.chat_ids.push(chat_id);
                self.states.push(state);
                proof {
                    lemma_map_of_prefix(k0, v0, self.chat_ids@, self.states@, k0.len());
                }
            },
        }
    }

    /// Takes the state of `chat_id` out of the store, or `init` when it has
    /// none; the store keeps the state until `set` replaces it.
    pub fn take_or(&self, chat_id: i64, init: S) -> (r: S)
        where S: Copy
        requires
            self.wf(),
        ensures
            r == (if self@.contains_key(chat_id) { self@[chat_id] } else { init }),
    {
        match self.get(chat_id) {
            Some(s) => *s,
            None => init,
        }
    }
}

} // verus!
