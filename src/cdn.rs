//! The service endpoints and the CDN protocol: identification fields of the multipart forms,
//! and the response envelope.
use vstd::prelude::*;
use vstd::string::StringExecFns;

use crate::errors::{Error, ErrorKind};
use crate::types::SessionIdentification;

verus! {

/// Default JSON-RPC endpoint.
pub const HOST: &'static str = "http://socialvoid.qlg1.com:5601/";

/// Default CDN endpoint.
pub const CDN_URL: &'static str = "http://socialvoid.qlg1.com:5602/";

pub fn get_host() -> (r: String)
    ensures
        r@ == HOST@,
{
    String::from_str(HOST)
}

pub fn get_cdn_url() -> (r: String)
    ensures
        r@ == CDN_URL@,
{
    String::from_str(CDN_URL)
}

/// What a CDN request asks for.
#[derive(Debug, Clone, Copy, PartialEq, Eq, Structural)]
pub enum CdnAction {
    Upload,
    Download,
}

impl CdnAction {
    pub open spec fn spec_name(self) -> Seq<char> {
        match self {
            CdnAction::Upload => "upload"@,
            CdnAction::Download => "download"@,
        }
    }

    /// The value of the form's `action` field.
    pub fn name(&self) -> (r: String)
        ensures
            r@ == self.spec_name(),
    {
        match self {
            CdnAction::Upload => String::from_str("upload"),
            CdnAction::Download => String::from_str("download"),
        }
    }
}

/// The text fields of a CDN form, in order: the identification triplet, then the action.
pub open spec fn form_fields_of(id: SessionIdentification, action: CdnAction) -> Seq<
    (Seq<char>, Seq<char>),
> {
    seq![
        ("client_public_hash"@, id.client_public_hash@),
        ("session_id"@, id.session_id@),
        ("challenge_answer"@, id.challenge_answer@),
        ("action"@, action.spec_name()),
    ]
}

pub open spec fn view_fields(fields: Seq<(String, String)>) -> Seq<(Seq<char>, Seq<char>)> {
    fields.map_values(|f: (String, String)| (f.0@, f.1@))
}

/// The text fields that identify the session on a CDN request. A download adds the
/// document id under `document`; an upload adds the file as a part of its own.
pub fn cdn_form_fields(id: SessionIdentification, action: CdnAction) -> (r: Vec<(String, String)>)
    ensures
        view_fields(r@) == form_fields_of(id, action),
{
    let ghost spec_id = id;
    let action_name = action.name();
    let mut r: Vec<(String, String)> = Vec::new();
    r.push((String::from_str("client_public_hash"), id.client_public_hash));
    r.push((String::from_str("session_id"), id.session_id));
    r.push((String::from_str("challenge_answer"), id.challenge_answer));
    r.push((String::from_str("action"), action_name));
    assert(view_fields(r@) =~= form_fields_of(spec_id, action));
    r
}

/// The envelope of every CDN response.
#[derive(Debug)]
pub struct CdnResponse<T> {
    pub success: bool,
    pub error_code: Option<i32>,
    pub message: Option<String>,
    pub results: Option<T>,
}

/// The message a failed envelope reports: its own, or empty when it has none.
pub open spec fn cdn_message(message: Option<String>) -> Seq<char> {
    match message {
        Some(m) => m@,
        None => Seq::empty(),
    }
}

impl Error {
    /// The error that a failed CDN envelope reports: its code (0 when absent) and message
    /// (empty when absent).
    pub fn from_cdn_failure(error_code: Option<i32>, message: Option<String>) -> (r: Error)
        ensures
            r.code == (match error_code {
                Some(c) => c,
                None => 0,
            }),
            r.kind matches ErrorKind::Cdn(m) && m@ == cdn_message(message),
            r.description@ == "CDN error occurred"@,
    {
        let code = match error_code {
            Some(c) => c,
            None => 0,
        };
        let text = match message {
            Some(m) => m,
            None => String::new(),
        };
        Error { code, kind: ErrorKind::Cdn(text), description: String::from_str("CDN error occurred") }
    }
}

impl<T> CdnResponse<T> {
    /// The results of a successful envelope. A failed one gives its own error; a successful one
    /// without results is a protocol violation and an error too, never an empty success.
    pub fn results(self) -> (r: Result<T, Error>)
        ensures
            self.success && self.results is Some ==> r == Ok::<T, Error>(self.results->0),
            !self.success ==> r is Err,
            r matches Err(e) ==> (!self.success ==> e.code == (match self.error_code {
                Some(c) => c,
                None => 0,
            }) && e.description@ == "CDN error occurred"@),
            r matches Err(e) ==> (!self.success ==> (e.kind matches ErrorKind::Cdn(m) && m@
                == cdn_message(self.message))),
            self.success && self.results is None ==> (r matches Err(e) && e.kind is Unknown
                && e.code == -1 && e.description@
                == "CDN Error: Success is true but no results found"@),
    {
        if !self.success {
            return Err(Error::from_cdn_failure(self.error_code, self.message));
        }
        match self.results {
            Some(res) => Ok(res),
            None => Err(
                Error {
                    kind: ErrorKind::Unknown,
                    code: -1,
                    description: String::from_str(
                        "CDN Error: Success is true but no results found",
                    ),
                },
            ),
        }
    }
}

} // verus!
