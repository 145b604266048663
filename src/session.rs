//! One session's state machine: establishment, authentication, and the terms-of-service
//! acknowledgment that registration consumes.
use vstd::prelude::*;
use vstd::string::StringExecFns;

use crate::challenge::{answer_at, answer_challenge_at, challenge_is_answerable, is_base32_text,
    is_lower_hex, unix_seconds};
use crate::errors::{ClientError, Error, ErrorKind};
use crate::identity::ClientInfo;
use crate::types::{HelpDocument, SessionIdentification};

verus! {

/// A session as the server describes it.
#[derive(Debug)]
pub struct Session {
    pub id: String,
    pub flags: Vec<String>,
    pub authenticated: bool,
    pub created: i32,
    pub expires: i32,
}

/// What the server returns when it creates a session: its id and the challenge to answer.
#[derive(Debug)]
pub struct SessionEstablished {
    pub id: String,
    pub challenge: String,
}

/// State of one logical session slot.
#[derive(Debug)]
pub struct SessionHolder {
    pub established: Option<SessionEstablished>,
    pub authenticated: bool,
    pub client_info: ClientInfo,
    /// Id of the terms of service accepted and not yet used by a registration.
    pub tos_read: Option<String>,
}

/// What a user gives to register.
#[derive(Debug)]
pub struct RegisterRequest {
    pub username: String,
    pub password: String,
    pub first_name: String,
    pub last_name: Option<String>,
}

/// The parameters of a registration request.
#[derive(Debug)]
pub struct SessionRegisterInput {
    pub session_identification: SessionIdentification,
    pub terms_of_service_id: String,
    pub terms_of_service_agree: bool,
    pub username: String,
    pub password: String,
    pub first_name: String,
    pub last_name: Option<String>,
}

/// The error for a clock that reads before the Unix epoch.
fn clock_error() -> (r: Error)
    ensures
        r.kind is Io,
        r.code == -1,
{
    Error {
        kind: ErrorKind::Io,
        code: -1,
        description: String::from_str("The system clock reads before the Unix epoch"),
    }
}

impl SessionHolder {
    /// Why `session_identification` refuses this state, if it does.
    pub open spec fn identification_refusal(self) -> Option<ClientError> {
        match self.established {
            None => Some(ClientError::SessionNotEstablished),
            Some(e) => if challenge_is_answerable(e.challenge@) {
                None
            } else {
                Some(ClientError::MalformedChallenge)
            },
        }
    }

    /// Why registration refuses this state, if it does: the acknowledgment is checked first.
    pub open spec fn register_refusal(self) -> Option<ClientError> {
        if self.tos_read is None {
            Some(ClientError::TermsOfServiceNotAgreed)
        } else {
            self.identification_refusal()
        }
    }

    /// The state after accepting the terms of service with id `id`.
    pub open spec fn accepted(self, id: String) -> SessionHolder {
        SessionHolder { tos_read: Some(id), ..self }
    }

    /// The state after a registration attempt: a successful one consumes the acknowledgment.
    pub open spec fn after_register(self) -> SessionHolder {
        if self.register_refusal() is None {
            SessionHolder { tos_read: None, ..self }
        } else {
            self
        }
    }

    /// The identification of this state at the Unix time `unix_secs`.
    pub open spec fn identifies(self, id: SessionIdentification, unix_secs: u64) -> bool {
        &&& self.established matches Some(e)
        &&& id.session_id@ == e.id@
        &&& id.client_public_hash@ == self.client_info.public_hash@
        &&& answer_at(self.client_info.private_hash@, e.challenge@, unix_secs) == Some(
            id.challenge_answer@,
        )
        &&& id.challenge_answer@.len() == 40
        &&& is_lower_hex(id.challenge_answer@)
    }

    /// A fresh, unestablished session for an identity.
    pub fn new(client_info: ClientInfo) -> (r: SessionHolder)
        ensures
            r.established is None,
            !r.authenticated,
            r.client_info == client_info,
            r.tos_read is None,
    {
        SessionHolder { established: None, client_info, tos_read: None, authenticated: false }
    }

    /// Records what the server returned for `session.create`.
    pub fn establish(&mut self, record: SessionEstablished)
        ensures
            *final(self) == (SessionHolder { established: Some(record), ..*old(self) }),
    {
        self.established = Some(record);
    }

    /// Records a successful `session.authenticate_user`.
    pub fn record_authentication(&mut self)
        ensures
            *final(self) == (SessionHolder { authenticated: true, ..*old(self) }),
    {
        self.authenticated = true;
    }

    /// Records a successful `session.logout`: the session stays established.
    pub fn record_logout(&mut self)
        ensures
            *final(self) == (SessionHolder { authenticated: false, ..*old(self) }),
    {
        self.authenticated = false;
    }

    /// Whether a user is logged in within this session.
    pub fn authenticated(&self) -> (r: bool)
        ensures
            r == self.authenticated,
    {
        self.authenticated
    }

    /// Accepts the terms of service: its id is held until one registration uses it.
    pub fn accept_terms_of_service(&mut self, tos: HelpDocument)
        ensures
            *final(self) == old(self).accepted(tos.id),
    {
        self.tos_read = Some(tos.id);
    }

    /// The identification triplet at the Unix time `unix_secs`.
    pub fn session_identification_at(&self, unix_secs: u64) -> (r: Result<
        SessionIdentification,
        Error,
    >)
        ensures
            r is Ok <==> self.identification_refusal() is None,
            r matches Ok(id) ==> self.identifies(id, unix_secs),
            self.established matches Some(e) && is_base32_text(e.challenge@) ==> r is Ok,
            r matches Err(e) ==> self.identification_refusal() matches Some(c) && e.kind
                == ErrorKind::Client(c),
            r matches Err(e) ==> e.code == -1,
    {
        match &self.established {
            None => Err(Error::new_client_error(ClientError::SessionNotEstablished)),
            Some(e) => {
                let answer = answer_challenge_at(
                    self.client_info.private_hash.clone(),
                    e.challenge.clone(),
                    unix_secs,
                );
                match answer {
                    None => Err(Error::new_client_error(ClientError::MalformedChallenge)),
                    Some(challenge_answer) => Ok(
                        SessionIdentification {
                            session_id: e.id.clone(),
                            client_public_hash: self.client_info.public_hash.clone(),
                            challenge_answer,
                        },
                    ),
                }
            },
        }
    }

    /// The identification triplet now; it is computed afresh on every call.
    pub fn session_identification(&self) -> (r: Result<SessionIdentification, Error>)
        ensures
            r matches Ok(id) ==> exists|t: u64| #[trigger] self.identifies(id, t),
            self.identification_refusal() matches Some(c) ==> r matches Err(e) && e.kind
                == ErrorKind::Client(c),
            r matches Err(e) ==> e.kind is Io || (self.identification_refusal() matches Some(c)
                && e.kind == ErrorKind::Client(c)),
            r matches Err(e) ==> e.code == -1,
    {
        match unix_seconds() {
            Some(now) => self.session_identification_at(now),
            None => match self.session_identification_at(0) {
                Err(e) => Err(e),
                Ok(_) => Err(clock_error()),
            },
        }
    }

    /// The parameters of `session.register` at the Unix time `unix_secs`. Fails, without
    /// consuming anything, when no terms of service were accepted or the session cannot be
    /// identified; on success the acknowledgment is consumed.
    pub fn register_input_at(&mut self, request: RegisterRequest, unix_secs: u64) -> (r: Result<
        SessionRegisterInput,
        Error,
    >)
        ensures
            *final(self) == old(self).after_register(),
            r is Ok <==> old(self).register_refusal() is None,
            r matches Err(e) ==> old(self).register_refusal() matches Some(c) && e.kind
                == ErrorKind::Client(c),
            r matches Err(e) ==> e.code == -1,
            r matches Ok(input) ==> {
                &&& old(self).identifies(input.session_identification, unix_secs)
                &&& old(self).tos_read == Some(input.terms_of_service_id)
                &&& input.terms_of_service_agree
                &&& input.username == request.username
                &&& input.password == request.password
                &&& input.first_name == request.first_name
                &&& input.last_name == request.last_name
            },
    {
        if self.tos_read.is_none() {
            return Err(Error::new_client_error(ClientError::TermsOfServiceNotAgreed));
        }
        let session_identification = match self.session_identification_at(unix_secs) {
            Ok(id) => id,
            Err(e) => {
                return Err(e);
            },
        };
        let terms_of_service_id = match self.tos_read.take() {
            Some(id) => id,
            None => {
                return Err(Error::new_client_error(ClientError::TermsOfServiceNotAgreed));
            },
        };
        Ok(
            SessionRegisterInput {
                session_identification,
                terms_of_service_id,
                terms_of_service_agree: true,
                username: request.username,
                password: request.password,
                first_name: request.first_name,
                last_name: request.last_name,
            },
        )
    }

    /// The parameters of `session.register` now.
    pub fn register_input(&mut self, request: RegisterRequest) -> (r: Result<
        SessionRegisterInput,
        Error,
    >)
        ensures
            r is Ok ==> *final(self) == old(self).after_register(),
            r is Err ==> *final(self) == *old(self),
            old(self).register_refusal() matches Some(c) ==> r matches Err(e) && e.kind
                == ErrorKind::Client(c),
            r matches Ok(input) ==> old(self).tos_read == Some(input.terms_of_service_id) && exists|
                t: u64,
            | #[trigger] old(self).identifies(input.session_identification, t),
            r matches Err(e) ==> e.kind is Io || (old(self).register_refusal() matches Some(c)
                && e.kind == ErrorKind::Client(c)),
            r matches Err(e) ==> e.code == -1,
    {
        if self.tos_read.is_none() {
            return Err(Error::new_client_error(ClientError::TermsOfServiceNotAgreed));
        }
        match unix_seconds() {
            Some(now) => self.register_input_at(request, now),
            None => match self.session_identification_at(0) {
                Err(e) => Err(e),
                Ok(_) => Err(clock_error()),
            },
        }
    }
}

/// A session that was never established cannot be identified, so no identified request can
/// be made from it.
pub proof fn lemma_unestablished_cannot_identify(h: SessionHolder)
    requires
        h.established is None,
    ensures
        h.identification_refusal() == Some(ClientError::SessionNotEstablished),
        forall|id: SessionIdentification, t: u64| !h.identifies(id, t),
{
}

/// The terms-of-service acknowledgment is single-use: without it registration is refused;
/// after accepting, one registration of an identifiable session goes through, and a second
/// one without accepting again is refused.
pub proof fn lemma_terms_acknowledgment_single_use(h: SessionHolder, tos_id: String)
    ensures
        h.tos_read is None ==> h.register_refusal() == Some(ClientError::TermsOfServiceNotAgreed),
        h.identification_refusal() is None ==> h.accepted(tos_id).register_refusal() is None,
        h.identification_refusal() is None ==> h.accepted(tos_id).after_register().register_refusal()
            == Some(ClientError::TermsOfServiceNotAgreed),
{
}

} // verus!
