use vstd::prelude::*;

use crate::error::Error;

verus! {

/// What a request to delete a key leads to.
#[derive(Clone, Copy, Debug, PartialEq, Eq, Structural)]
pub enum DeleteAction {
    /// The key is live: the capability is asked to delete it.
    Forward,
    /// The key is already deleted: the request succeeds and nothing is asked.
    AlreadyDeleted,
}

/// The deleted flag and the result after a request to delete, where
/// `outcome` is what the capability answers if it is asked.
pub open spec fn after_delete(deleted: bool, outcome: Result<(), Error>) -> (bool, Result<(), Error>) {
    if deleted {
        (true, Ok(()))
    } else {
        match outcome {
            Ok(()) => (true, Ok(())),
            Err(e) => (false, Err(e)),
        }
    }
}

/// Deletion is idempotent: once a delete has succeeded, a second one
/// succeeds too, whatever the capability would answer, and the key stays
/// deleted.
pub proof fn lemma_delete_idempotent(
    deleted: bool,
    first: Result<(), Error>,
    second: Result<(), Error>,
)
    requires
        after_delete(deleted, first).1 is Ok,
    ensures
        after_delete(after_delete(deleted, first).0, second) == (true, Ok::<(), Error>(())),
{
}

/// Whether a key handle's key has been deleted.
pub struct KeyLifecycle {
    deleted: bool,
}

impl KeyLifecycle {
    pub closed spec fn is_deleted(&self) -> bool {
        self.deleted
    }

    /// A live key.
    pub fn new() -> (r: KeyLifecycle)
        ensures
            !r.is_deleted(),
    {
        KeyLifecycle { deleted: false }
    }

    pub fn deleted(&self) -> (r: bool)
        ensures
            r == self.is_deleted(),
    {
        self.deleted
    }

    /// Decides whether a request to delete goes to the capability.
    pub fn delete_action(&self) -> (r: DeleteAction)
        ensures
            r == (if self.is_deleted() {
                DeleteAction::AlreadyDeleted
            } else {
                DeleteAction::Forward
            }),
    {
        if self.deleted {
            DeleteAction::AlreadyDeleted
        } else {
            DeleteAction::Forward
        }
    }

    /// Records the end of a request to delete; `outcome` is the capability's
    /// answer where it was asked, and is not looked at otherwise.
    pub fn complete_delete(&mut self, outcome: Result<(), Error>) -> (r: Result<(), Error>)
        ensures
            (final(self).is_deleted(), r) == after_delete(old(self).is_deleted(), outcome),
    {
        if self.deleted {
            Ok(())
        } else {
            match outcome {
                Ok(()) => {
                    self.deleted = true;
                    Ok(())
                },
                Err(e) => Err(e),
            }
        }
    }
}

} // verus!
