use vstd::prelude::*;

use crate::error::Error;
use crate::port_op::Response;

verus! {

/// A new one-shot result to show.
#[derive(Debug, PartialEq)]
pub enum ResponseViewMessage {
    AddResponse(Result<Response, Error>),
}

/// The results of one-shot queries, oldest first.
#[derive(Debug, PartialEq)]
pub struct ResponseView {
    responses: Vec<Result<Response, Error>>,
}

impl View for ResponseView {
    type V = Seq<Result<Response, Error>>;

    closed spec fn view(&self) -> Seq<Result<Response, Error>> {
        self.responses@
    }
}

impl Default for ResponseView {
    fn default() -> (r: Self)
        ensures
            r@ == Seq::<Result<Response, Error>>::empty(),
    {
        ResponseView { responses: Vec::new() }
    }
}

impl ResponseView {
    pub fn responses(&self) -> (r: &Vec<Result<Response, Error>>)
        ensures
            r@ == self@,
    {
        &self.responses
    }

    /// Adds a result after the others.
    pub fn update(&mut self, msg: ResponseViewMessage)
        ensures
            msg matches ResponseViewMessage::AddResponse(r) && final(self)@ == old(self)@.push(r),
    {
        match msg {
            ResponseViewMessage::AddResponse(response) => {
                self.responses.push(response);
            },
        }
    }
}

/// A continuous-session result under its operation's name, or a request to
/// forget every result.
#[derive(Debug, PartialEq)]
pub enum KeyedResponseViewMessage {
    AddResponse(String, Result<Response, Error>),
    ClearResponses,
}

/// The index of the entry whose key is `k`, if any.
pub open spec fn has_key(s: Seq<(String, Result<Response, Error>)>, k: Seq<char>, i: int) -> bool {
    0 <= i < s.len() && s[i].0@ == k
}

/// No two entries share a key.
pub open spec fn keys_distinct(s: Seq<(String, Result<Response, Error>)>) -> bool {
    forall|i: int, j: int| 0 <= i < j < s.len() ==> s[i].0@ != s[j].0@
}

/// `s` with result `r` recorded under key `k`: in place of the entry with
/// that key, or after the others when there is none.
pub open spec fn keyed_insert(
    s: Seq<(String, Result<Response, Error>)>,
    k: String,
    r: Result<Response, Error>,
) -> Seq<(String, Result<Response, Error>)> {
    if exists|i: int| has_key(s, k@, i) {
        s.update(choose|i: int| has_key(s, k@, i), (k, r))
    } else {
        s.push((k, r))
    }
}

/// `s` after recording, in order, each successful result of `results` under
/// its operation's name; failures are skipped.
pub open(crate) spec fn record_all(
    s: Seq<(String, Result<Response, Error>)>,
    results: Seq<Result<Response, Error>>,
) -> Seq<(String, Result<Response, Error>)>
    decreases results.len(),
{
    if results.len() == 0 {
        s
    } else {
        let before = record_all(s, results.drop_last());
        match results.last() {
            Ok(resp) => keyed_insert(before, resp.op.name, results.last()),
            Err(_) => before,
        }
    }
}

/// The latest result of each operation of a continuous session, keyed by
/// the operation's name; a key keeps the place where it first came.
#[derive(Debug, PartialEq)]
pub struct KeyedResponseView {
    quarries: Vec<(String, Result<Response, Error>)>,
}

impl View for KeyedResponseView {
    type V = Seq<(String, Result<Response, Error>)>;

    closed spec fn view(&self) -> Seq<(String, Result<Response, Error>)> {
        self.quarries@
    }
}

impl Default for KeyedResponseView {
    fn default() -> (r: Self)
        ensures
            r@ == Seq::<(String, Result<Response, Error>)>::empty(),
    {
        KeyedResponseView { quarries: Vec::new() }
    }
}

impl KeyedResponseView {
    pub open spec fn wf(&self) -> bool {
        keys_distinct(self@)
    }

    pub fn entries(&self) -> (r: &Vec<(String, Result<Response, Error>)>)
        ensures
            r@ == self@,
    {
        &self.quarries
    }

    fn find(&self, key: &String) -> (r: Option<usize>)
        ensures
            r matches Some(i) ==> has_key(self@, key@, i as int),
            r is None ==> forall|i: int| !has_key(self@, key@, i),
    {
        let mut i: usize = 0;
        while i < self.quarries.len()
            invariant
                i <= self.quarries@.len(),
                forall|j: int| 0 <= j < i ==> !has_key(self.quarries@, key@, j),
            decreases self.quarries@.len() - i,
        {
            if self.quarries[i].0 == *key {
                return Some(i);
            }
            i += 1;
        }
        None
    }

    /// Records a result under its key, replacing the one held there, or
    /// forgets every result.
    pub fn update(&mut self, msg: KeyedResponseViewMessage)
        requires
            old(self).wf(),
        ensures
            final(self).wf(),
            msg is ClearResponses ==> final(self)@ == Seq::<(String, Result<Response, Error>)>::empty(),
            msg matches KeyedResponseViewMessage::AddResponse(k, r) ==> final(self)@ == keyed_insert(
                old(self)@,
                k,
                r,
            ),
    {
        match msg {
            KeyedResponseViewMessage::AddResponse(key, response) => {
                match self.find(&key) {
                    Some(i) => {
                        let ghost before = self.quarries@;
                        self.quarries.remove(i);
                        self.quarries.insert(i, (key, response));
                        assert(self.quarries@ =~= before.update(i as int, (key, response)));
                        assert(has_key(before, key@, i as int));
                        let ghost j = choose|j: int| has_key(before, key@, j);
                        assert(j == i);
                        assert(forall|j: int|
                            0 <= j < before.len() ==> #[trigger] self.quarries@[j].0@ == before[j].0@);
                        assert forall|a: int, b: int|
                            0 <= a < b < self.quarries@.len() implies self.quarries@[a].0@
                            != self.quarries@[b].0@ by {
                            assert(self.quarries@[a].0@ == before[a].0@);
                            assert(self.quarries@[b].0@ == before[b].0@);
                        }
                    },
                    None => {
                        let ghost before = self.quarries@;
                        self.quarries.push((key, response));
                        assert(forall|j: int|
                            0 <= j < before.len() ==> !has_key(before, key@, j));
                        assert(forall|j: int|
                            0 <= j < before.len() ==> #[trigger] self.quarries@[j] == before[j]);
                        assert forall|a: int, b: int|
                            0 <= a < b < self.quarries@.len() implies self.quarries@[a].0@
                            != self.quarries@[b].0@ by {
                            if b == before.len() {
                                assert(!has_key(before, key@, a));
                            }
                        }
                    },
                }
            },
            KeyedResponseViewMessage::ClearResponses => {
                self.quarries.clear();
            },
        }
    }

    /// Records each successful result of a batch under its operation's name,
    /// in order; failed results are skipped.
    pub fn add_results(&mut self, results: Vec<Result<Response, Error>>)
        requires
            old(self).wf(),
        ensures
            final(self).wf(),
            final(self)@ == record_all(old(self)@, results@),
    {
        let ghost all = results@;
        let mut rest = results;
        let mut done: Vec<Result<Response, Error>> = Vec::new();
        let n = rest.len();
        let mut i: usize = 0;
        while i < n
            invariant
                all == results@,
                n == all.len(),
                i <= n,
                rest@ == all.skip(i as int),
                self.wf(),
                self@ == record_all(old(self)@, all.take(i as int)),
            decreases n - i,
        {
            let r = rest.remove(0);
            assert(r == all[i as int]);
            assert(all.take(i + 1).drop_last() =~= all.take(i as int));
            match r {
                Ok(resp) => {
                    let key = resp.op.name.clone();
                    self.update(KeyedResponseViewMessage::AddResponse(key, Ok(resp)));
                },
                Err(_) => {},
            }
            assert(rest@ =~= all.skip(i + 1));
            i += 1;
        }
        assert(all.take(n as int) =~= all);
    }
}

} // verus!
