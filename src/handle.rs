use vstd::prelude::*;

use crate::error::Error;

verus! {

/// The access bookkeeping of one shared handle, as a mathematical value.
pub struct AccessView {
    /// How many shared holders there are.
    pub readers: nat,
    /// Whether an exclusive holder exists.
    pub writer: bool,
    /// Whether an exclusive holder once terminated abnormally.
    pub poisoned: bool,
}

/// An exclusive holder excludes every other holder.
pub open spec fn access_wf(s: AccessView) -> bool {
    s.writer ==> s.readers == 0
}

/// The state of a handle that nobody holds.
pub open spec fn fresh_access() -> AccessView {
    AccessView { readers: 0, writer: false, poisoned: false }
}

/// The answer to a request for access.
#[derive(Clone, Copy, Debug, PartialEq, Eq, Structural)]
pub enum Grant {
    /// The access is granted.
    Granted,
    /// The access cannot be granted now; the requester waits and asks again.
    WouldBlock,
    /// The handle is poisoned; no access will ever be granted again.
    Poisoned,
}

pub open spec fn read_grant(s: AccessView) -> Grant {
    if s.poisoned {
        Grant::Poisoned
    } else if s.writer || s.readers >= u64::MAX {
        Grant::WouldBlock
    } else {
        Grant::Granted
    }
}

pub open spec fn write_grant(s: AccessView) -> Grant {
    if s.poisoned {
        Grant::Poisoned
    } else if s.writer || s.readers > 0 {
        Grant::WouldBlock
    } else {
        Grant::Granted
    }
}

/// The things that happen to a handle's access state.
#[derive(Clone, Copy, Debug, PartialEq, Eq, Structural)]
pub enum AccessEvent {
    AcquireRead,
    AcquireWrite,
    ReleaseRead,
    ReleaseWrite,
    /// The exclusive holder terminated abnormally while holding access.
    AbandonWrite,
}

/// The state after `e`. A release that has nothing to release changes
/// nothing.
pub open spec fn next_access(s: AccessView, e: AccessEvent) -> AccessView {
    match e {
        AccessEvent::AcquireRead => if read_grant(s) == Grant::Granted {
            AccessView { readers: s.readers + 1, ..s }
        } else {
            s
        },
        AccessEvent::AcquireWrite => if write_grant(s) == Grant::Granted {
            AccessView { writer: true, ..s }
        } else {
            s
        },
        AccessEvent::ReleaseRead => if s.readers > 0 {
            AccessView { readers: (s.readers - 1) as nat, ..s }
        } else {
            s
        },
        AccessEvent::ReleaseWrite => AccessView { writer: false, ..s },
        AccessEvent::AbandonWrite => if s.writer {
            AccessView { writer: false, poisoned: true, ..s }
        } else {
            s
        },
    }
}

/// The state after the events `es`, in order.
pub open spec fn run_access(s: AccessView, es: Seq<AccessEvent>) -> AccessView
    decreases es.len(),
{
    if es.len() == 0 {
        s
    } else {
        next_access(run_access(s, es.drop_last()), es.last())
    }
}

/// Every event keeps an exclusive holder alone.
pub proof fn lemma_next_access_wf(s: AccessView, e: AccessEvent)
    requires
        access_wf(s),
    ensures
        access_wf(next_access(s, e)),
{
}

/// No two exclusive holders, and no exclusive holder beside a shared one, in
/// any state that a sequence of events reaches from a well-formed state:
/// exclusive access is granted only where nobody holds the handle, and
/// nothing is granted while it is held exclusively.
pub proof fn lemma_exclusive_access_serialized(s: AccessView, es: Seq<AccessEvent>)
    requires
        access_wf(s),
    ensures
        access_wf(run_access(s, es)),
        write_grant(run_access(s, es)) == Grant::Granted ==> !run_access(s, es).writer
            && run_access(s, es).readers == 0,
        run_access(s, es).writer ==> write_grant(run_access(s, es)) != Grant::Granted
            && read_grant(run_access(s, es)) != Grant::Granted,
    decreases es.len(),
{
    if es.len() > 0 {
        lemma_exclusive_access_serialized(s, es.drop_last());
        lemma_next_access_wf(run_access(s, es.drop_last()), es.last());
    }
}

/// `n` acquisitions of shared access in a row.
pub open spec fn reads(n: nat) -> Seq<AccessEvent> {
    Seq::new(n, |i: int| AccessEvent::AcquireRead)
}

/// Shared holders do not exclude each other: from a state without an
/// exclusive holder, any number of shared acquisitions (up to the counter's
/// capacity) are all granted, none of them waits.
pub proof fn lemma_shared_access_concurrent(s: AccessView, n: nat)
    requires
        access_wf(s),
        !s.poisoned,
        !s.writer,
        s.readers + n <= u64::MAX,
    ensures
        run_access(s, reads(n)) == (AccessView { readers: s.readers + n, ..s }),
        forall|k: nat| k < n ==> read_grant(#[trigger] run_access(s, reads(k))) == Grant::Granted,
    decreases n,
{
    if n > 0 {
        lemma_shared_access_concurrent(s, (n - 1) as nat);
        assert(reads(n).drop_last() =~= reads((n - 1) as nat));
        assert forall|k: nat| k < n implies read_grant(#[trigger] run_access(s, reads(k)))
            == Grant::Granted by {
            if k < n - 1 {
            } else {
                assert(k == n - 1);
            }
        }
    }
}

/// Poisoning is permanent: from a poisoned state, whatever happens, the
/// handle stays poisoned and every request for access, shared or
/// exclusive, is answered with `Poisoned`.
pub proof fn lemma_poison_permanent(s: AccessView, es: Seq<AccessEvent>)
    requires
        s.poisoned,
    ensures
        run_access(s, es).poisoned,
        read_grant(run_access(s, es)) == Grant::Poisoned,
        write_grant(run_access(s, es)) == Grant::Poisoned,
    decreases es.len(),
{
    if es.len() > 0 {
        lemma_poison_permanent(s, es.drop_last());
    }
}

/// Proof that shared access was granted; given up on release.
pub struct ReadGuard {
    handle: u64,
}

/// Proof that exclusive access was granted; given up on release.
pub struct WriteGuard {
    handle: u64,
}

impl ReadGuard {
    pub closed spec fn handle_spec(&self) -> u64 {
        self.handle
    }
}

impl WriteGuard {
    pub closed spec fn handle_spec(&self) -> u64 {
        self.handle
    }
}

/// The access discipline of one shared handle: any number of shared holders,
/// or one exclusive holder, and permanent poisoning when an exclusive holder
/// terminates abnormally.
pub struct AccessControl {
    id: u64,
    readers: u64,
    writer: bool,
    poisoned: bool,
}

impl View for AccessControl {
    type V = AccessView;

    closed spec fn view(&self) -> AccessView {
        AccessView { readers: self.readers as nat, writer: self.writer, poisoned: self.poisoned }
    }
}

impl AccessControl {
    pub closed spec fn id_spec(&self) -> u64 {
        self.id
    }

    pub open spec fn wf(&self) -> bool {
        access_wf(self@)
    }

    /// A handle that nobody holds; `id` tells its guards from other handles'.
    pub fn new(id: u64) -> (r: AccessControl)
        ensures
            r.wf(),
            r@ == fresh_access(),
            r.id_spec() == id,
    {
        AccessControl { id, readers: 0, writer: false, poisoned: false }
    }

    pub fn is_poisoned(&self) -> (r: bool)
        ensures
            r == self@.poisoned,
    {
        self.poisoned
    }

    /// Asks for shared access.
    pub fn acquire_read(&mut self) -> (r: Result<ReadGuard, Grant>)
        requires
            old(self).wf(),
        ensures
            final(self).wf(),
            final(self).id_spec() == old(self).id_spec(),
            final(self)@ == next_access(old(self)@, AccessEvent::AcquireRead),
            r matches Ok(g) ==> read_grant(old(self)@) == Grant::Granted && g.handle_spec()
                == old(self).id_spec(),
            r matches Err(e) ==> read_grant(old(self)@) == e && e != Grant::Granted,
    {
        if self.poisoned {
            Err(Grant::Poisoned)
        } else if self.writer || self.readers == u64::MAX {
            Err(Grant::WouldBlock)
        } else {
            self.readers = self.readers + 1;
            Ok(ReadGuard { handle: self.id })
        }
    }

    /// Asks for exclusive access.
    pub fn acquire_write(&mut self) -> (r: Result<WriteGuard, Grant>)
        requires
            old(self).wf(),
        ensures
            final(self).wf(),
            final(self).id_spec() == old(self).id_spec(),
            final(self)@ == next_access(old(self)@, AccessEvent::AcquireWrite),
            r matches Ok(g) ==> write_grant(old(self)@) == Grant::Granted && g.handle_spec()
                == old(self).id_spec(),
            r matches Err(e) ==> write_grant(old(self)@) == e && e != Grant::Granted,
    {
        if self.poisoned {
            Err(Grant::Poisoned)
        } else if self.writer || self.readers > 0 {
            Err(Grant::WouldBlock)
        } else {
            self.writer = true;
            Ok(WriteGuard { handle: self.id })
        }
    }

    /// Gives shared access back.
    pub fn release_read(&mut self, g: ReadGuard)
        requires
            old(self).wf(),
            g.handle_spec() == old(self).id_spec(),
        ensures
            final(self).wf(),
            final(self).id_spec() == old(self).id_spec(),
            final(self)@ == next_access(old(self)@, AccessEvent::ReleaseRead),
    {
        if self.readers > 0 {
            self.readers = self.readers - 1;
        }
    }

    /// Gives exclusive access back after a normal end.
    pub fn release_write(&mut self, g: WriteGuard)
        requires
            old(self).wf(),
            g.handle_spec() == old(self).id_spec(),
        ensures
            final(self).wf(),
            final(self).id_spec() == old(self).id_spec(),
            final(self)@ == next_access(old(self)@, AccessEvent::ReleaseWrite),
    {
        self.writer = false;
    }

    /// Gives exclusive access back after the holder terminated abnormally:
    /// the handle is poisoned for good.
    pub fn abandon_write(&mut self, g: WriteGuard)
        requires
            old(self).wf(),
            g.handle_spec() == old(self).id_spec(),
        ensures
            final(self).wf(),
            final(self).id_spec() == old(self).id_spec(),
            final(self)@ == next_access(old(self)@, AccessEvent::AbandonWrite),
    {
        if self.writer {
            self.writer = false;
            self.poisoned = true;
        }
    }
}

/// The error that a refused request for access reports, where the
/// requester does not wait.
pub open spec fn grant_error(g: Grant) -> Option<Error> {
    match g {
        Grant::Poisoned => Some(Error::PoisonedLock),
        _ => None,
    }
}

/// Maps a refusal to the error that the caller sees: `Some(PoisonedLock)`
/// for a poisoned handle, `None` where the requester is to wait.
pub fn refusal_error(g: Grant) -> (r: Option<Error>)
    ensures
        r == grant_error(g),
{
    match g {
        Grant::Poisoned => Some(Error::PoisonedLock),
        _ => None,
    }
}

} // verus!
