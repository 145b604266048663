use socialvoid::{
    ClientError, ClientInfo, ErrorKind, HelpDocument, RegisterRequest, SessionEstablished,
    SessionHolder,
};

fn session_identity() -> ClientInfo {
    ClientInfo {
        public_hash: "publichash".to_string(),
        private_hash: "privatehash".to_string(),
        name: "Social Void Rust".to_string(),
        platform: "Linux".to_string(),
        version: "0.0.1".to_string(),
    }
}

fn established(challenge: &str) -> SessionHolder {
    let mut holder = SessionHolder::new(session_identity());
    holder.establish(SessionEstablished {
        id: "session-1".to_string(),
        challenge: challenge.to_string(),
    });
    holder
}

fn terms() -> HelpDocument {
    HelpDocument { id: "tos-7".to_string(), text: "Be nice.".to_string(), entities: Vec::new() }
}

fn request() -> RegisterRequest {
    RegisterRequest {
        first_name: "Light".to_string(),
        last_name: None,
        username: "justanotherlight".to_string(),
        password: "SuperStrongPassword".to_string(),
    }
}

fn session_client_error(kind: &ErrorKind) -> Option<ClientError> {
    match kind {
        ErrorKind::Client(c) => Some(*c),
        _ => None,
    }
}

#[test]
fn fresh_holder_is_not_established() {
    let holder = SessionHolder::new(session_identity());
    assert!(holder.established.is_none());
    assert!(!holder.authenticated());
    let err = holder.session_identification().unwrap_err();
    assert_eq!(session_client_error(&err.kind), Some(ClientError::SessionNotEstablished));
    assert_eq!(err.code, -1);
    let err = holder.session_identification_at(60).unwrap_err();
    assert_eq!(session_client_error(&err.kind), Some(ClientError::SessionNotEstablished));
    assert_eq!(err.code, -1);
}

#[test]
fn answer_never_reveals_a_long_private_hash() {
    let mut info = session_identity();
    info.private_hash = "p".repeat(64);
    let mut holder = SessionHolder::new(info);
    holder.establish(SessionEstablished {
        id: "session-2".to_string(),
        challenge: "JBSWY3DPEHPK3PXP".to_string(),
    });
    let id = holder.session_identification_at(60).unwrap();
    assert_eq!(id.challenge_answer.len(), 40);
    assert!(!id.challenge_answer.contains(&holder.client_info.private_hash));
    assert_ne!(id.client_public_hash, holder.client_info.private_hash);
}

#[test]
fn identification_of_established_session() {
    let holder = established("JBSWY3DPEHPK3PXP");
    let id = holder.session_identification_at(60).unwrap();
    assert_eq!(id.session_id, "session-1");
    assert_eq!(id.client_public_hash, "publichash");
    assert_eq!(id.challenge_answer, "441574999f5fd364a38542554650b8f2f03a79dd");
    let now = holder.session_identification().unwrap();
    assert_eq!(now.session_id, "session-1");
    assert_eq!(now.challenge_answer.len(), 40);
}

#[test]
fn malformed_challenge_is_refused() {
    let holder = established("not base32!");
    let err = holder.session_identification_at(60).unwrap_err();
    assert_eq!(session_client_error(&err.kind), Some(ClientError::MalformedChallenge));
}

#[test]
fn register_requires_accepted_terms_once() {
    let mut holder = established("JBSWY3DPEHPK3PXP");
    let err = holder.register_input_at(request(), 60).unwrap_err();
    assert_eq!(session_client_error(&err.kind), Some(ClientError::TermsOfServiceNotAgreed));

    holder.accept_terms_of_service(terms());
    assert_eq!(holder.tos_read.as_deref(), Some("tos-7"));
    let input = holder.register_input_at(request(), 60).unwrap();
    assert_eq!(input.terms_of_service_id, "tos-7");
    assert!(input.terms_of_service_agree);
    assert_eq!(input.username, "justanotherlight");
    assert_eq!(input.password, "SuperStrongPassword");
    assert_eq!(input.first_name, "Light");
    assert_eq!(input.last_name, None);
    assert_eq!(input.session_identification.session_id, "session-1");
    assert_eq!(
        input.session_identification.challenge_answer,
        "441574999f5fd364a38542554650b8f2f03a79dd"
    );
    assert!(holder.tos_read.is_none());

    let err = holder.register_input_at(request(), 60).unwrap_err();
    assert_eq!(session_client_error(&err.kind), Some(ClientError::TermsOfServiceNotAgreed));
}

#[test]
fn register_without_terms_on_fresh_holder() {
    let mut holder = SessionHolder::new(session_identity());
    let err = holder.register_input(request()).unwrap_err();
    assert_eq!(session_client_error(&err.kind), Some(ClientError::TermsOfServiceNotAgreed));
}

#[test]
fn failed_register_keeps_the_acknowledgment() {
    let mut holder = SessionHolder::new(session_identity());
    holder.accept_terms_of_service(terms());
    let err = holder.register_input(request()).unwrap_err();
    assert_eq!(session_client_error(&err.kind), Some(ClientError::SessionNotEstablished));
    assert_eq!(holder.tos_read.as_deref(), Some("tos-7"));
}

#[test]
fn register_now_consumes_the_acknowledgment() {
    let mut holder = established("JBSWY3DPEHPK3PXP");
    holder.accept_terms_of_service(terms());
    let input = holder.register_input(request()).unwrap();
    assert_eq!(input.terms_of_service_id, "tos-7");
    assert!(holder.tos_read.is_none());
    assert!(holder.register_input(request()).is_err());
}

#[test]
fn login_and_logout_keep_the_session() {
    let mut holder = established("JBSWY3DPEHPK3PXP");
    holder.record_authentication();
    assert!(holder.authenticated());
    holder.record_logout();
    assert!(!holder.authenticated());
    assert!(holder.established.is_some());
}

#[test]
fn help_document_plain_text() {
    assert_eq!(terms().get_plain_text(), "Be nice.");
}
