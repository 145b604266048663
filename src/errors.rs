//! Error taxonomy: local client errors, server errors classified by numeric code, and
//! transport failures.
use vstd::prelude::*;
use vstd::string::StringExecFns;

verus! {

/// Numeric error code as the server reports it.
pub type ErrorCode = i32;

/// JSON-RPC protocol errors.
#[derive(Debug, Clone, Copy, PartialEq, Eq, Structural)]
pub enum RpcError {
    ParseError,
    InvalidRequest,
    MethodNotFound,
    InvalidParams,
    InternalError,
}

/// Input validation errors.
#[derive(Debug, Clone, Copy, PartialEq, Eq, Structural)]
pub enum ValidationError {
    InvalidUsername,
    InvalidPassword,
    InvalidFirstName,
    InvalidLastName,
    InvalidBiography,
    UsernameAlreadyExists,
    InvalidPeerInput,
    InvalidPostText,
    InvalidClientPublicHash,
    InvalidClientPrivateHash,
    InvalidPlatform,
    InvalidVersion,
    InvalidClientName,
    InvalidSessionIdentification,
    InvalidFileForProfilePicture,
    FileTooLarge,
    InvalidHelpDocumentId,
    AgreementRequired,
}

/// Authentication and session errors.
#[derive(Debug, Clone, Copy, PartialEq, Eq, Structural)]
pub enum AuthenticationError {
    IncorrectLoginCredentials,
    IncorrectTwoFactorAuthenticationCode,
    AuthenticationNotApplicable,
    SessionNotFound,
    NotAuthenticated,
    PrivateAccessTokenRequired,
    AuthenticationFailure,
    BadSessionChallengeAnswer,
    TwoFactorAuthenticationRequired,
    AlreadyAuthenticated,
    SessionExpired,
}

/// Server-side failures.
#[derive(Debug, Clone, Copy, PartialEq, Eq, Structural)]
pub enum ServerError {
    InternalServerError,
    DocumentUpload,
}

/// Errors raised locally, before any request is sent.
#[derive(Debug, Clone, Copy, PartialEq, Eq, Structural)]
pub enum ClientError {
    TermsOfServiceNotAgreed,
    SessionNotEstablished,
    NoSessionsExist,
    SessionIndexOutOfBounds { count: usize },
    /// Persisted data could not be read back.
    Corrupt,
    /// The server's challenge is not base32 text, so it cannot be answered.
    MalformedChallenge,
}

/// The families of server error codes, each owning a contiguous range.
#[derive(Debug, Clone, Copy, PartialEq, Eq, Structural)]
pub enum ErrorFamily {
    Rpc,
    Validation,
    Authentication,
    Network,
    Server,
}

/// One row of the code-range table.
#[derive(Debug, Clone, Copy, PartialEq, Eq, Structural)]
pub struct CodeRange {
    pub low: i32,
    pub high: i32,
    pub family: ErrorFamily,
}

#[derive(Debug)]
pub enum ErrorKind {
    Validation(ValidationError),
    Authentication(AuthenticationError),
    /// A code of the network family, kept as reported.
    Network(ErrorCode),
    Server(ServerError),
    Rpc(RpcError),
    Cdn(String),
    JsonParsing,
    /// The HTTP request itself failed.
    Request,
    /// Local input/output failed.
    Io,
    Client(ClientError),
    Unknown,
}

#[derive(Debug)]
pub struct Error {
    pub kind: ErrorKind,
    pub code: ErrorCode,
    pub description: String,
}

// ---------------------------------------------------------------------------
// Codes of the known errors.
impl RpcError {
    pub open spec fn spec_code(self) -> i32 {
        match self {
            RpcError::ParseError => -32700i32,
            RpcError::InvalidRequest => -32600i32,
            RpcError::MethodNotFound => -32601i32,
            RpcError::InvalidParams => -32602i32,
            RpcError::InternalError => -32603i32,
        }
    }

    /// The error with this code, if any.
    pub fn from_code(code: i32) -> (r: Option<RpcError>)
        ensures
            r matches Some(k) ==> k.spec_code() == code,
            r is None ==> forall|k: RpcError| #[trigger] k.spec_code() != code,
    {
        match code {
            -32700 => Some(RpcError::ParseError),
            -32600 => Some(RpcError::InvalidRequest),
            -32601 => Some(RpcError::MethodNotFound),
            -32602 => Some(RpcError::InvalidParams),
            -32603 => Some(RpcError::InternalError),
            _ => None,
        }
    }
}

impl ValidationError {
    pub open spec fn spec_code(self) -> i32 {
        match self {
            ValidationError::InvalidUsername => 8448,
            ValidationError::InvalidPassword => 8449,
            ValidationError::InvalidFirstName => 8450,
            ValidationError::InvalidLastName => 8451,
            ValidationError::InvalidBiography => 8452,
            ValidationError::UsernameAlreadyExists => 8453,
            ValidationError::InvalidPeerInput => 8454,
            ValidationError::InvalidPostText => 8455,
            ValidationError::InvalidClientPublicHash => 8456,
            ValidationError::InvalidClientPrivateHash => 8457,
            ValidationError::InvalidPlatform => 8458,
            ValidationError::InvalidVersion => 8459,
            ValidationError::InvalidClientName => 8460,
            ValidationError::InvalidSessionIdentification => 8461,
            ValidationError::InvalidFileForProfilePicture => 8462,
            ValidationError::FileTooLarge => 8463,
            ValidationError::InvalidHelpDocumentId => 8464,
            ValidationError::AgreementRequired => 8465,
        }
    }

    /// The error with this code, if any.
    pub fn from_code(code: i32) -> (r: Option<ValidationError>)
        ensures
            r matches Some(k) ==> k.spec_code() == code,
            r is None ==> forall|k: ValidationError| #[trigger] k.spec_code() != code,
    {
        match code {
            8448 => Some(ValidationError::InvalidUsername),
            8449 => Some(ValidationError::InvalidPassword),
            8450 => Some(ValidationError::InvalidFirstName),
            8451 => Some(ValidationError::InvalidLastName),
            8452 => Some(ValidationError::InvalidBiography),
            8453 => Some(ValidationError::UsernameAlreadyExists),
            8454 => Some(ValidationError::InvalidPeerInput),
            8455 => Some(ValidationError::InvalidPostText),
            8456 => Some(ValidationError::InvalidClientPublicHash),
            8457 => Some(ValidationError::InvalidClientPrivateHash),
            8458 => Some(ValidationError::InvalidPlatform),
            8459 => Some(ValidationError::InvalidVersion),
            8460 => Some(ValidationError::InvalidClientName),
            8461 => Some(ValidationError::InvalidSessionIdentification),
            8462 => Some(ValidationError::InvalidFileForProfilePicture),
            8463 => Some(ValidationError::FileTooLarge),
            8464 => Some(ValidationError::InvalidHelpDocumentId),
            8465 => Some(ValidationError::AgreementRequired),
            _ => None,
        }
    }
}

impl AuthenticationError {
    pub open spec fn spec_code(self) -> i32 {
        match self {
            AuthenticationError::IncorrectLoginCredentials => 8704,
            AuthenticationError::IncorrectTwoFactorAuthenticationCode => 8705,
            AuthenticationError::AuthenticationNotApplicable => 8706,
            AuthenticationError::SessionNotFound => 8707,
            AuthenticationError::NotAuthenticated => 8708,
            AuthenticationError::PrivateAccessTokenRequired => 8709,
            AuthenticationError::AuthenticationFailure => 8710,
            AuthenticationError::BadSessionChallengeAnswer => 8711,
            AuthenticationError::TwoFactorAuthenticationRequired => 8712,
            AuthenticationError::AlreadyAuthenticated => 8713,
            AuthenticationError::SessionExpired => 8714,
        }
    }

    /// The error with this code, if any.
    pub fn from_code(code: i32) -> (r: Option<AuthenticationError>)
        ensures
            r matches Some(k) ==> k.spec_code() == code,
            r is None ==> forall|k: AuthenticationError| #[trigger] k.spec_code() != code,
    {
        match code {
            8704 => Some(AuthenticationError::IncorrectLoginCredentials),
            8705 => Some(AuthenticationError::IncorrectTwoFactorAuthenticationCode),
            8706 => Some(AuthenticationError::AuthenticationNotApplicable),
            8707 => Some(AuthenticationError::SessionNotFound),
            8708 => Some(AuthenticationError::NotAuthenticated),
            8709 => Some(AuthenticationError::PrivateAccessTokenRequired),
            8710 => Some(AuthenticationError::AuthenticationFailure),
            8711 => Some(AuthenticationError::BadSessionChallengeAnswer),
            8712 => Some(AuthenticationError::TwoFactorAuthenticationRequired),
            8713 => Some(AuthenticationError::AlreadyAuthenticated),
            8714 => Some(AuthenticationError::SessionExpired),
            _ => None,
        }
    }
}

impl ServerError {
    pub open spec fn spec_code(self) -> i32 {
        match self {
            ServerError::InternalServerError => 16384,
            ServerError::DocumentUpload => 16385,
        }
    }

    /// The error with this code, if any.
    pub fn from_code(code: i32) -> (r: Option<ServerError>)
        ensures
            r matches Some(k) ==> k.spec_code() == code,
            r is None ==> forall|k: ServerError| #[trigger] k.spec_code() != code,
    {
        match code {
            16384 => Some(ServerError::InternalServerError),
            16385 => Some(ServerError::DocumentUpload),
            _ => None,
        }
    }
}

// ---------------------------------------------------------------------------
// The range table.
/// Which family owns which codes; the first row that holds a code decides.
pub open spec fn family_table() -> Seq<CodeRange> {
    seq![
        CodeRange { low: -32768i32, high: -32000i32, family: ErrorFamily::Rpc },
        CodeRange { low: 8448, high: 8703, family: ErrorFamily::Validation },
        CodeRange { low: 8704, high: 8979, family: ErrorFamily::Authentication },
        CodeRange { low: 12544, high: 16383, family: ErrorFamily::Network },
        CodeRange { low: 16384, high: 2147483647, family: ErrorFamily::Server },
    ]
}

pub open spec fn in_range(row: CodeRange, code: i32) -> bool {
    row.low <= code && code <= row.high
}

/// The family of the first row at or after `from` that holds `code`.
pub open spec fn family_from(table: Seq<CodeRange>, from: int, code: i32) -> Option<ErrorFamily>
    decreases table.len() - from,
{
    if from < 0 || from >= table.len() {
        None
    } else if in_range(table[from], code) {
        Some(table[from].family)
    } else {
        family_from(table, from + 1, code)
    }
}

/// The family that owns `code`, if any.
pub open spec fn family_of(code: i32) -> Option<ErrorFamily> {
    family_from(family_table(), 0, code)
}

/// What a server error code means: its family, then the member of that family with this code;
/// `Unknown` outside every range or for a code that no member carries.
pub open spec fn classifies(code: i32, kind: ErrorKind) -> bool {
    match family_of(code) {
        None => kind is Unknown,
        Some(ErrorFamily::Rpc) => match kind {
            ErrorKind::Rpc(k) => k.spec_code() == code,
            ErrorKind::Unknown => forall|k: RpcError| #[trigger] k.spec_code() != code,
            _ => false,
        },
        Some(ErrorFamily::Validation) => match kind {
            ErrorKind::Validation(k) => k.spec_code() == code,
            ErrorKind::Unknown => forall|k: ValidationError| #[trigger] k.spec_code() != code,
            _ => false,
        },
        Some(ErrorFamily::Authentication) => match kind {
            ErrorKind::Authentication(k) => k.spec_code() == code,
            ErrorKind::Unknown => forall|k: AuthenticationError| #[trigger] k.spec_code() != code,
            _ => false,
        },
        Some(ErrorFamily::Network) => kind == ErrorKind::Network(code),
        Some(ErrorFamily::Server) => match kind {
            ErrorKind::Server(k) => k.spec_code() == code,
            ErrorKind::Unknown => forall|k: ServerError| #[trigger] k.spec_code() != code,
            _ => false,
        },
    }
}

/// The code-range table as data.
pub fn code_ranges() -> (r: Vec<CodeRange>)
    ensures
        r@ == family_table(),
{
    let r = vec![
        CodeRange { low: -32768i32, high: -32000i32, family: ErrorFamily::Rpc },
        CodeRange { low: 8448, high: 8703, family: ErrorFamily::Validation },
        CodeRange { low: 8704, high: 8979, family: ErrorFamily::Authentication },
        CodeRange { low: 12544, high: 16383, family: ErrorFamily::Network },
        CodeRange { low: 16384, high: 2147483647, family: ErrorFamily::Server },
    ];
    assert(r@ =~= family_table());
    r
}

/// The family that owns `code`, looked up in the table.
pub fn family_of_code(code: i32) -> (r: Option<ErrorFamily>)
    ensures
        r == family_of(code),
{
    let table = code_ranges();
    let mut i: usize = 0;
    while i < table.len()
        invariant
            table@ == family_table(),
            i <= table@.len(),
            family_from(table@, i as int, code) == family_of(code),
        decreases table@.len() - i,
    {
        let row = table[i];
        if row.low <= code && code <= row.high {
            return Some(row.family);
        }
        i += 1;
    }
    None
}

impl ErrorKind {
    /// Classifies a server error code.
    pub fn from_code(code: ErrorCode) -> (r: ErrorKind)
        ensures
            classifies(code, r),
    {
        match family_of_code(code) {
            None => ErrorKind::Unknown,
            Some(ErrorFamily::Rpc) => match RpcError::from_code(code) {
                Some(k) => ErrorKind::Rpc(k),
                None => ErrorKind::Unknown,
            },
            Some(ErrorFamily::Validation) => match ValidationError::from_code(code) {
                Some(k) => ErrorKind::Validation(k),
                None => ErrorKind::Unknown,
            },
            Some(ErrorFamily::Authentication) => match AuthenticationError::from_code(code) {
                Some(k) => ErrorKind::Authentication(k),
                None => ErrorKind::Unknown,
            },
            Some(ErrorFamily::Network) => ErrorKind::Network(code),
            Some(ErrorFamily::Server) => match ServerError::from_code(code) {
                Some(k) => ErrorKind::Server(k),
                None => ErrorKind::Unknown,
            },
        }
    }

    /// A session that the server no longer knows or has let expire: the only errors that are
    /// recovered from, by replacing the session.
    pub open spec fn spec_invalidates_session(&self) -> bool {
        match self {
            ErrorKind::Authentication(AuthenticationError::SessionExpired) => true,
            ErrorKind::Authentication(AuthenticationError::SessionNotFound) => true,
            _ => false,
        }
    }

    pub fn invalidates_session(&self) -> (r: bool)
        ensures
            r == self.spec_invalidates_session(),
    {
        match self {
            ErrorKind::Authentication(AuthenticationError::SessionExpired) => true,
            ErrorKind::Authentication(AuthenticationError::SessionNotFound) => true,
            _ => false,
        }
    }
}

impl Error {
    /// A local error, raised before any request is sent.
    pub fn new_client_error(error_type: ClientError) -> (r: Error)
        ensures
            r.kind == ErrorKind::Client(error_type),
            r.code == -1,
    {
        Error {
            kind: ErrorKind::Client(error_type),
            code: -1,
            description: String::from_str("There was an error on the client"),
        }
    }

    /// A response body that could not be parsed as JSON.
    pub fn json_parsing() -> (r: Error)
        ensures
            r.kind is JsonParsing,
            r.code == -1,
    {
        Error { code: -1, kind: ErrorKind::JsonParsing, description: String::from_str("JSON Parsing error") }
    }

    /// An HTTP request that failed before a response came.
    pub fn request_failed() -> (r: Error)
        ensures
            r.kind is Request,
            r.code == -1,
    {
        Error { code: -1, kind: ErrorKind::Request, description: String::from_str("Request error occurred") }
    }

    /// A local input/output failure.
    pub fn io_failed() -> (r: Error)
        ensures
            r.kind is Io,
            r.code == -1,
    {
        Error { code: -1, kind: ErrorKind::Io, description: String::from_str("IO error occurred") }
    }

    /// An error that the server reported: its code classified, its message kept (`"none"`
    /// when it sent none).
    pub fn from_server(code: ErrorCode, message: Option<String>) -> (r: Error)
        ensures
            r.code == code,
            classifies(code, r.kind),
            message matches Some(m) ==> r.description@ == m@,
            message is None ==> r.description@ == "none"@,
    {
        let description = match message {
            Some(m) => m,
            None => String::from_str("none"),
        };
        Error { kind: ErrorKind::from_code(code), code, description }
    }
}

} // verus!
