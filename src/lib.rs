//! Session identity and challenge-response authentication for a Socialvoid client: the
//! client identity, the challenge solver, the per-session state machine, the registry of
//! sessions, and the CDN envelope.
pub mod cdn;
pub mod challenge;
pub mod config;
pub mod errors;
pub mod identity;
pub mod registry;
pub mod rpc;
pub mod session;
pub mod types;

pub use cdn::{get_cdn_url, get_host, CdnAction, CdnResponse};
pub use challenge::{answer_challenge, answer_challenge_at, hotp, totp, totp_at};
pub use config::{CachedStuff, Config};
pub use errors::{
    AuthenticationError, ClientError, Error, ErrorKind, RpcError, ServerError, ValidationError,
};
pub use identity::ClientInfo;
pub use registry::{recovery_step, RecoveryStep, SessionRegistry};
pub use session::{
    RegisterRequest, Session, SessionEstablished, SessionHolder, SessionRegisterInput,
};
pub use types::{HelpDocument, SessionIdentification};
