//! Traversals over lists of ids, one fetch at a time.
//!
//! A traversal does no fetching itself. Its driver asks it for the next id,
//! fetches and resolves that id, and hands the outcome back. `Gather` is
//! strict: the first failed outcome ends the traversal with that error.
//! `Sift` is tolerant: it keeps the entities that resolved and passes over
//! the ids that did not.

use vstd::prelude::*;
use crate::error::HError;

verus! {

/// The entities of the successful outcomes, in order.
pub open spec fn successes<T>(outcomes: Seq<Result<T, HError>>) -> Seq<T>
    decreases outcomes.len(),
{
    if outcomes.len() == 0 {
        Seq::empty()
    } else {
        let rest = successes(outcomes.drop_last());
        match outcomes.last() {
            Ok(v) => rest.push(v),
            Err(_) => rest,
        }
    }
}

/// A strict traversal: every id must resolve, and the first failure ends it.
pub struct Gather<T> {
    ids: Vec<u64>,
    pos: usize,
    found: Vec<T>,
}

impl<T> Gather<T> {
    /// The ids to visit, in order.
    pub closed spec fn ids(&self) -> Seq<u64> {
        self.ids@
    }

    /// How many ids have been visited.
    pub closed spec fn position(&self) -> nat {
        self.pos as nat
    }

    /// The entities gathered so far, one for each visited id.
    pub closed spec fn found(&self) -> Seq<T> {
        self.found@
    }

    /// The traversal has visited no more ids than it has, and holds one entity for each.
    pub closed spec fn wf(&self) -> bool {
        &&& self.pos <= self.ids@.len()
        &&& self.found@.len() == self.pos
    }

    /// A traversal over `ids` that has visited none of them.
    pub fn new(ids: Vec<u64>) -> (r: Gather<T>)
        ensures
            r.wf(),
            r.ids() == ids@,
            r.position() == 0,
            r.found() == Seq::<T>::empty(),
    {
        Gather { ids, pos: 0, found: Vec::new() }
    }

    /// The id to fetch next, or `None` once every id has been visited.
    pub fn next_id(&self) -> (r: Option<u64>)
        requires
            self.wf(),
        ensures
            self.position() < self.ids().len() ==> r == Some(self.ids()[self.position() as int]),
            self.position() >= self.ids().len() ==> r is None,
    {
        if self.pos < self.ids.len() {
            Some(self.ids[self.pos])
        } else {
            None
        }
    }

    /// Takes the outcome of fetching the next id: an entity moves the
    /// traversal on, an error ends it and is handed back.
    pub fn record(self, outcome: Result<T, HError>) -> (r: Result<Gather<T>, HError>)
        requires
            self.wf(),
            self.position() < self.ids().len(),
        ensures
            match outcome {
                Ok(v) => r is Ok && r->Ok_0.wf() && r->Ok_0.ids() == self.ids()
                    && r->Ok_0.position() == self.position() + 1
                    && r->Ok_0.found() == self.found().push(v),
                Err(e) => r == Err::<Gather<T>, HError>(e),
            },
    {
        match outcome {
            Ok(v) => {
                let Gather { ids, pos, mut found } = self;
                let n = ids.len();
                assert(pos < n);
                found.push(v);
                Ok(Gather { ids, pos: pos + 1, found })
            },
            Err(e) => Err(e),
        }
    }

    /// The entities gathered, one for each id, once every id has been visited.
    pub fn finish(self) -> (r: Vec<T>)
        requires
            self.wf(),
            self.position() == self.ids().len(),
        ensures
            r@ == self.found(),
            r@.len() == self.ids().len(),
    {
        self.found
    }
}

/// A tolerant traversal: it keeps what resolved and passes over what did not.
pub struct Sift<T> {
    ids: Vec<u64>,
    pos: usize,
    found: Vec<T>,
    outcomes: Ghost<Seq<Result<T, HError>>>,
}

impl<T> Sift<T> {
    /// The ids to visit, in order.
    pub closed spec fn ids(&self) -> Seq<u64> {
        self.ids@
    }

    /// How many ids have been visited.
    pub closed spec fn position(&self) -> nat {
        self.pos as nat
    }

    /// The outcome of each visited id, in order.
    pub closed spec fn outcomes(&self) -> Seq<Result<T, HError>> {
        self.outcomes@
    }

    /// The entities kept so far.
    pub closed spec fn found(&self) -> Seq<T> {
        self.found@
    }

    /// The traversal has one outcome for each visited id, and keeps exactly their entities.
    pub closed spec fn wf(&self) -> bool {
        &&& self.pos <= self.ids@.len()
        &&& self.outcomes@.len() == self.pos
        &&& self.found@ == successes(self.outcomes@)
    }

    /// A traversal over `ids` that has visited none of them.
    pub fn new(ids: Vec<u64>) -> (r: Sift<T>)
        ensures
            r.wf(),
            r.ids() == ids@,
            r.position() == 0,
            r.outcomes() == Seq::<Result<T, HError>>::empty(),
            r.found() == Seq::<T>::empty(),
    {
        let r = Sift { ids, pos: 0, found: Vec::new(), outcomes: Ghost(Seq::empty()) };
        assert(r.found@ == successes(r.outcomes@));
        r
    }

    /// The id to fetch next, or `None` once every id has been visited.
    pub fn next_id(&self) -> (r: Option<u64>)
        requires
            self.wf(),
        ensures
            self.position() < self.ids().len() ==> r == Some(self.ids()[self.position() as int]),
            self.position() >= self.ids().len() ==> r is None,
    {
        if self.pos < self.ids.len() {
            Some(self.ids[self.pos])
        } else {
            None
        }
    }

    /// Takes the outcome of fetching the next id: an entity is kept, an error
    /// is passed over, and either way the traversal moves on.
    pub fn record(&mut self, outcome: Result<T, HError>)
        requires
            old(self).wf(),
            old(self).position() < old(self).ids().len(),
        ensures
            final(self).wf(),
            final(self).ids() == old(self).ids(),
            final(self).position() == old(self).position() + 1,
            final(self).outcomes() == old(self).outcomes().push(outcome),
            final(self).found() == match outcome {
                Ok(v) => old(self).found().push(v),
                Err(_) => old(self).found(),
            },
    {
        let ghost before = self.outcomes@;
        proof {
            self.outcomes = Ghost(before.push(outcome));
            assert(self.outcomes@.drop_last() == before);
        }
        match outcome {
            Ok(v) => {
                self.found.push(v);
            },
            Err(_) => {},
        }
        let n = self.ids.len();
        assert(self.pos < n);
        self.pos = self.pos + 1;
    }

    /// The entities kept, once every id has been visited.
    pub fn finish(self) -> (r: Vec<T>)
        requires
            self.wf(),
            self.position() == self.ids().len(),
        ensures
            r@ == successes(self.outcomes()),
            self.outcomes().len() == self.ids().len(),
    {
        self.found
    }
}

} // verus!
