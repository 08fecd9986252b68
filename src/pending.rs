use vstd::prelude::*;

use crate::error::{category_of, message_of, to_caller_error, CallerError, Error};

verus! {

/// Where a pending result stands.
pub enum Settlement<V> {
    Pending,
    Resolved(V),
    Rejected(Error),
}

/// The settlement that `outcome` gives.
pub open spec fn settled<V>(outcome: Result<V, Error>) -> Settlement<V> {
    match outcome {
        Ok(v) => Settlement::Resolved(v),
        Err(e) => Settlement::Rejected(e),
    }
}

/// One attempt to settle: a pending result takes the outcome; a settled one
/// keeps what it has.
pub open spec fn settle_step<V>(s: Settlement<V>, outcome: Result<V, Error>) -> Settlement<V> {
    match s {
        Settlement::Pending => settled(outcome),
        _ => s,
    }
}

/// The settlement after the attempts `outcomes`, in order.
pub open spec fn settle_all<V>(s: Settlement<V>, outcomes: Seq<Result<V, Error>>) -> Settlement<V>
    decreases outcomes.len(),
{
    if outcomes.len() == 0 {
        s
    } else {
        settle_step(settle_all(s, outcomes.drop_last()), outcomes.last())
    }
}

/// A pending result leaves `Pending` at most once: after any attempts to
/// settle it, it holds the first outcome, or is still pending if there was
/// none; every later attempt changes nothing.
pub proof fn lemma_settles_at_most_once<V>(outcomes: Seq<Result<V, Error>>)
    ensures
        outcomes.len() == 0 ==> settle_all(Settlement::<V>::Pending, outcomes) == Settlement::<
            V,
        >::Pending,
        outcomes.len() > 0 ==> settle_all(Settlement::<V>::Pending, outcomes) == settled(
            outcomes[0],
        ),
    decreases outcomes.len(),
{
    if outcomes.len() > 1 {
        lemma_settles_at_most_once(outcomes.drop_last());
        assert(outcomes.drop_last()[0] == outcomes[0]);
        let prev = settle_all(Settlement::<V>::Pending, outcomes.drop_last());
        assert(!(prev is Pending));
        assert(settle_step(prev, outcomes.last()) == prev);
    } else if outcomes.len() == 1 {
        assert(settle_all(Settlement::<V>::Pending, outcomes.drop_last()) == Settlement::<
            V,
        >::Pending);
        assert(outcomes.last() == outcomes[0]);
    }
}

/// The caller's placeholder for a value that a worker computes.
pub struct PendingResult<V> {
    id: u64,
    state: Settlement<V>,
}

/// The worker's side of a pending result: it settles the result once, and is
/// used up in doing so.
pub struct Resolver {
    id: u64,
}

impl Resolver {
    pub closed spec fn id_spec(&self) -> u64 {
        self.id
    }

    /// Settles `p` with `outcome`. The resolver is consumed, so it settles
    /// nothing a second time.
    pub fn settle<V>(self, p: &mut PendingResult<V>, outcome: Result<V, Error>)
        requires
            old(p).id_spec() == self.id_spec(),
            old(p).state() is Pending,
        ensures
            final(p).id_spec() == old(p).id_spec(),
            final(p).state() == settle_step(old(p).state(), outcome),
            final(p).state() == settled(outcome),
    {
        p.state = match outcome {
            Ok(v) => Settlement::Resolved(v),
            Err(e) => Settlement::Rejected(e),
        };
    }
}

impl<V> PendingResult<V> {
    pub closed spec fn id_spec(&self) -> u64 {
        self.id
    }

    pub closed spec fn state(&self) -> Settlement<V> {
        self.state
    }

    /// A pending result and the resolver that alone can settle it.
    pub fn new(id: u64) -> (r: (PendingResult<V>, Resolver))
        ensures
            r.0.state() is Pending,
            r.0.id_spec() == id,
            r.1.id_spec() == id,
    {
        (PendingResult { id, state: Settlement::Pending }, Resolver { id })
    }

    pub fn is_pending(&self) -> (r: bool)
        ensures
            r == (self.state() is Pending),
    {
        match self.state {
            Settlement::Pending => true,
            _ => false,
        }
    }

    /// What the caller receives: nothing while pending; the value, or the
    /// error in the shape that the caller sees.
    pub fn into_outcome(self) -> (r: Option<Result<V, CallerError>>)
        ensures
            self.state() is Pending ==> r is None,
            self.state() matches Settlement::Resolved(v) ==> r == Some(
                Ok::<V, CallerError>(v),
            ),
            self.state() matches Settlement::Rejected(e) ==> r matches Some(Err(c))
                && c.category == category_of(e) && c.message@ == message_of(e),
    {
        match self.state {
            Settlement::Pending => None,
            Settlement::Resolved(v) => Some(Ok(v)),
            Settlement::Rejected(e) => Some(Err(to_caller_error(&e))),
        }
    }
}

} // verus!
