//! Bookkeeping of several sessions of one client identity, one of them "current", and the
//! policy for recovering from sessions the server has dropped.
use vstd::prelude::*;

use crate::errors::{ClientError, Error, ErrorKind};
use crate::identity::ClientInfo;
use crate::session::{SessionEstablished, SessionHolder};

verus! {

/// Where the current index goes when the current session, at `index` of `len` sessions, is
/// deleted: one back if it was the last one (none if it was also the first), else it stays
/// and names the session that moved into its slot.
pub open spec fn index_after_delete(index: nat, len: nat) -> Option<usize> {
    if index + 1 == len {
        if index == 0 {
            None
        } else {
            Some((index - 1) as usize)
        }
    } else {
        Some(index as usize)
    }
}

/// Where the current index goes when `added` sessions are loaded into a registry of `len`.
pub open spec fn index_after_load(current: Option<usize>, len: nat, added: nat) -> Option<usize> {
    if len == 0 && added > 0 {
        Some(0)
    } else {
        current
    }
}

/// The sessions of one client identity, with an optional current one.
pub struct SessionRegistry {
    identity: ClientInfo,
    sessions: Vec<SessionHolder>,
    current: Option<usize>,
}

impl SessionRegistry {
    /// Well-formedness: the current index, if set, names a session.
    pub closed spec fn wf(self) -> bool {
        &&& self.current matches Some(i) ==> i < self.sessions@.len()
        &&& self.sessions@.len() <= usize::MAX
    }

    /// The sessions, in order.
    pub closed spec fn spec_sessions(self) -> Seq<SessionHolder> {
        self.sessions@
    }

    /// The index of the current session.
    pub closed spec fn spec_current(self) -> Option<usize> {
        self.current
    }

    /// The identity that new sessions share.
    pub closed spec fn spec_identity(self) -> ClientInfo {
        self.identity
    }

    /// An empty registry for an identity.
    pub fn new(identity: ClientInfo) -> (r: SessionRegistry)
        ensures
            r.wf(),
            r.spec_sessions().len() == 0,
            r.spec_current() is None,
            r.spec_identity() == identity,
    {
        SessionRegistry { identity, sessions: Vec::new(), current: None }
    }

    pub fn len(&self) -> (r: usize)
        requires
            self.wf(),
        ensures
            r == self.spec_sessions().len(),
    {
        self.sessions.len()
    }

    pub fn current_index(&self) -> (r: Option<usize>)
        requires
            self.wf(),
        ensures
            r == self.spec_current(),
            r matches Some(i) ==> i < self.spec_sessions().len(),
    {
        self.current
    }

    pub fn identity(&self) -> (r: &ClientInfo)
        requires
            self.wf(),
        ensures
            *r == self.spec_identity(),
    {
        &self.identity
    }

    /// All sessions, in order (what is persisted).
    pub fn sessions(&self) -> (r: &[SessionHolder])
        requires
            self.wf(),
        ensures
            r@ == self.spec_sessions(),
    {
        self.sessions.as_slice()
    }

    /// The session at `index`, if there is one.
    pub fn get(&self, index: usize) -> (r: Option<&SessionHolder>)
        requires
            self.wf(),
        ensures
            index < self.spec_sessions().len() ==> r == Some(&self.spec_sessions()[index as int]),
            index >= self.spec_sessions().len() ==> r is None,
    {
        if index < self.sessions.len() {
            Some(&self.sessions[index])
        } else {
            None
        }
    }

    /// The current session, if one is selected.
    pub fn current(&self) -> (r: Option<&SessionHolder>)
        requires
            self.wf(),
        ensures
            self.spec_current() matches Some(i) ==> r == Some(&self.spec_sessions()[i as int]),
            self.spec_current() is None ==> r is None,
    {
        match self.current {
            Some(i) => Some(&self.sessions[i]),
            None => None,
        }
    }

    /// Replaces the session at `index`, handing back the one that was there.
    pub fn replace_session(&mut self, index: usize, holder: SessionHolder) -> (r: Result<
        SessionHolder,
        Error,
    >)
        requires
            old(self).wf(),
        ensures
            final(self).wf(),
            index < old(self).spec_sessions().len() ==> r == Ok::<SessionHolder, Error>(
                old(self).spec_sessions()[index as int],
            ) && final(self).spec_sessions() == old(self).spec_sessions().update(
                index as int,
                holder,
            ),
            index >= old(self).spec_sessions().len() ==> (r matches Err(e) && e.kind
                == ErrorKind::Client(
                ClientError::SessionIndexOutOfBounds { count: old(self).spec_sessions().len() as usize },
            ) && final(self).spec_sessions() == old(self).spec_sessions()),
            final(self).spec_current() == old(self).spec_current(),
            final(self).spec_identity() == old(self).spec_identity(),
    {
        if index < self.sessions.len() {
            let previous = self.sessions.remove(index);
            self.sessions.insert(index, holder);
            assert(self.sessions@ =~= old(self).sessions@.update(index as int, holder));
            Ok(previous)
        } else {
            Err(
                Error::new_client_error(
                    ClientError::SessionIndexOutOfBounds { count: self.sessions.len() },
                ),
            )
        }
    }

    /// Appends a session; the current index is left as it was.
    pub fn push_session(&mut self, holder: SessionHolder) -> (r: usize)
        requires
            old(self).wf(),
            old(self).spec_sessions().len() < usize::MAX,
        ensures
            final(self).wf(),
            r == old(self).spec_sessions().len(),
            final(self).spec_sessions() == old(self).spec_sessions().push(holder),
            final(self).spec_current() == old(self).spec_current(),
            final(self).spec_identity() == old(self).spec_identity(),
    {
        let index = self.sessions.len();
        self.sessions.push(holder);
        index
    }

    /// Adds a session of this registry's identity, established with what `session.create`
    /// returned, and gives its index.
    pub fn new_session(&mut self, record: SessionEstablished) -> (r: usize)
        requires
            old(self).wf(),
            old(self).spec_sessions().len() < usize::MAX,
        ensures
            final(self).wf(),
            r == old(self).spec_sessions().len(),
            final(self).spec_sessions() == old(self).spec_sessions().push(
                SessionHolder {
                    established: Some(record),
                    authenticated: false,
                    client_info: old(self).spec_identity(),
                    tos_read: None,
                },
            ),
            final(self).spec_current() == old(self).spec_current(),
            final(self).spec_identity() == old(self).spec_identity(),
    {
        let mut holder = SessionHolder::new(self.identity.clone());
        holder.establish(record);
        self.push_session(holder)
    }

    /// Selects the session at `index` as current.
    pub fn set_current(&mut self, index: usize) -> (r: Result<(), Error>)
        requires
            old(self).wf(),
        ensures
            final(self).wf(),
            r is Ok <==> index < old(self).spec_sessions().len(),
            r is Ok ==> final(self).spec_current() == Some(index),
            r matches Err(e) ==> e.kind == ErrorKind::Client(
                ClientError::SessionIndexOutOfBounds { count: old(self).spec_sessions().len() as usize },
            ) && final(self).spec_current() == old(self).spec_current(),
            final(self).spec_sessions() == old(self).spec_sessions(),
            final(self).spec_identity() == old(self).spec_identity(),
    {
        if index < self.sessions.len() {
            self.current = Some(index);
            Ok(())
        } else {
            Err(
                Error::new_client_error(
                    ClientError::SessionIndexOutOfBounds { count: self.sessions.len() },
                ),
            )
        }
    }

    /// Removes the current session and hands it back, moving the current index by
    /// `index_after_delete`.
    pub fn delete_current(&mut self) -> (r: Result<SessionHolder, Error>)
        requires
            old(self).wf(),
        ensures
            final(self).wf(),
            old(self).spec_current() is None ==> (r matches Err(e) && e.kind == ErrorKind::Client(
                ClientError::NoSessionsExist,
            ) && *final(self) == *old(self)),
            old(self).spec_current() matches Some(i) ==> {
                &&& r == Ok::<SessionHolder, Error>(old(self).spec_sessions()[i as int])
                &&& final(self).spec_sessions() == old(self).spec_sessions().remove(i as int)
                &&& final(self).spec_current() == index_after_delete(
                    i as nat,
                    old(self).spec_sessions().len(),
                )
            },
            final(self).spec_identity() == old(self).spec_identity(),
    {
        match self.current {
            None => Err(Error::new_client_error(ClientError::NoSessionsExist)),
            Some(index) => {
                let len = self.sessions.len();
                let next = if index + 1 == len {
                    if index == 0 {
                        None
                    } else {
                        Some(index - 1)
                    }
                } else {
                    Some(index)
                };
                self.current = None;
                let removed = self.sessions.remove(index);
                self.current = next;
                Ok(removed)
            },
        }
    }

    /// Appends persisted sessions. A registry that was empty selects the first loaded one;
    /// otherwise the current index is kept.
    pub fn load(&mut self, holders: Vec<SessionHolder>)
        requires
            old(self).wf(),
            old(self).spec_sessions().len() + holders@.len() <= usize::MAX,
        ensures
            final(self).wf(),
            final(self).spec_sessions() == old(self).spec_sessions() + holders@,
            final(self).spec_current() == index_after_load(
                old(self).spec_current(),
                old(self).spec_sessions().len(),
                holders@.len(),
            ),
            final(self).spec_identity() == old(self).spec_identity(),
    {
        let was_empty = self.sessions.len() == 0;
        let mut incoming = holders;
        let added = incoming.len();
        self.sessions.append(&mut incoming);
        if was_empty && added > 0 {
            self.current = Some(0);
        }
    }

    /// Recovery from a session the server dropped: deletes the current session and adds a
    /// replacement established with `record`, which becomes current.
    pub fn replace_current(&mut self, record: SessionEstablished) -> (r: Result<usize, Error>)
        requires
            old(self).wf(),
        ensures
            final(self).wf(),
            old(self).spec_current() is None ==> (r matches Err(e) && e.kind == ErrorKind::Client(
                ClientError::NoSessionsExist,
            ) && *final(self) == *old(self)),
            old(self).spec_current() matches Some(i) ==> {
                &&& r == Ok::<usize, Error>((old(self).spec_sessions().len() - 1) as usize)
                &&& final(self).spec_sessions() == old(self).spec_sessions().remove(i as int).push(
                    SessionHolder {
                        established: Some(record),
                        authenticated: false,
                        client_info: old(self).spec_identity(),
                        tos_read: None,
                    },
                )
                &&& final(self).spec_current() == Some(r->Ok_0)
            },
            final(self).spec_identity() == old(self).spec_identity(),
    {
        match self.delete_current() {
            Err(e) => Err(e),
            Ok(_) => {
                let index = self.new_session(record);
                self.current = Some(index);
                Ok(index)
            },
        }
    }
}

/// What to do after an operation on a session failed.
#[derive(Debug, Clone, Copy, PartialEq, Eq, Structural)]
pub enum RecoveryStep {
    /// Replace the session with a fresh one and retry the operation.
    ReplaceSessionAndRetry,
    /// Hand the error to the caller unchanged.
    Surface,
}

/// The recovery policy: an expired or unknown session is replaced and the operation retried
/// once; everything else, and any failure of the retry, is surfaced.
pub fn recovery_step(kind: &ErrorKind, already_retried: bool) -> (r: RecoveryStep)
    ensures
        r == RecoveryStep::ReplaceSessionAndRetry <==> kind.spec_invalidates_session()
            && !already_retried,
{
    if !already_retried && kind.invalidates_session() {
        RecoveryStep::ReplaceSessionAndRetry
    } else {
        RecoveryStep::Surface
    }
}

} // verus!
