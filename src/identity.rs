//! The long-lived pseudonymous identity of a client installation.
use vstd::prelude::*;
use vstd::string::StringExecFns;

use crate::challenge::is_lower_hex;
use rand::distributions::Alphanumeric;
use rand::{thread_rng, Rng};

verus! {

/// Name the client reports to the server.
pub const CLIENT_NAME: &'static str = "Social Void Rust";

/// Version the client reports to the server.
pub const CLIENT_VERSION: &'static str = "0.0.1";

/// Number of random characters behind each hash.
pub const SECRET_LEN: usize = 30;

/// Lower-case hex SHA-256 digest of the UTF-8 encoding of a text.
pub uninterp spec fn sha256_hex_of(s: Seq<char>) -> Seq<char>;

pub open spec fn is_alphanumeric(c: char) -> bool {
    ('A' <= c && c <= 'Z') || ('a' <= c && c <= 'z') || ('0' <= c && c <= '9')
}

/// A secret as the identity draws it: thirty ASCII letters and digits.
pub open spec fn is_secret(s: Seq<char>) -> bool {
    &&& s.len() == SECRET_LEN
    &&& forall|i: int| 0 <= i < s.len() ==> is_alphanumeric(#[trigger] s[i])
}

/// Relies on `sha256::digest`: 64 lower-case hex digits of the SHA-256 of the text's bytes.
#[verifier::external_body]
fn sha256_hex(s: &str) -> (r: String)
    ensures
        r@ == sha256_hex_of(s@),
        r@.len() == 64,
        is_lower_hex(r@),
{
    sha256::digest(s)
}

/// Relies on rand's thread-local generator sampled with `Alphanumeric`: one ASCII letter or
/// digit, as a one-character text.
#[verifier::external_body]
fn random_alphanumeric() -> (r: String)
    ensures
        r@.len() == 1,
        is_alphanumeric(r@[0]),
{
    char::from(thread_rng().sample(Alphanumeric)).to_string()
}

/// The identity: hashes of two independent secrets, and metadata about the client.
#[derive(Debug)]
pub struct ClientInfo {
    pub public_hash: String,
    pub private_hash: String,
    pub name: String,
    pub platform: String,
    pub version: String,
}

impl Clone for ClientInfo {
    fn clone(&self) -> (r: Self)
        ensures
            r == *self,
    {
        ClientInfo {
            public_hash: self.public_hash.clone(),
            private_hash: self.private_hash.clone(),
            name: self.name.clone(),
            platform: self.platform.clone(),
            version: self.version.clone(),
        }
    }
}

impl ClientInfo {
    /// Draws a fresh random secret.
    pub fn random_secret() -> (r: String)
        ensures
            is_secret(r@),
    {
        let mut s = String::new();
        let mut i: usize = 0;
        while i < SECRET_LEN
            invariant
                i <= SECRET_LEN,
                s@.len() == i,
                forall|j: int| 0 <= j < s@.len() ==> is_alphanumeric(#[trigger] s@[j]),
            decreases SECRET_LEN - i,
        {
            let c = random_alphanumeric();
            s.append(c.as_str());
            i += 1;
        }
        s
    }

    /// The identity behind two given secrets: each hash is the SHA-256 hex digest of its
    /// secret.
    pub fn from_secrets(public_secret: &str, private_secret: &str, platform: String) -> (r:
        ClientInfo)
        ensures
            r.public_hash@ == sha256_hex_of(public_secret@),
            r.private_hash@ == sha256_hex_of(private_secret@),
            r.public_hash@.len() == 64 && is_lower_hex(r.public_hash@),
            r.private_hash@.len() == 64 && is_lower_hex(r.private_hash@),
            r.name@ == CLIENT_NAME@,
            r.platform@ == platform@,
            r.version@ == CLIENT_VERSION@,
    {
        ClientInfo {
            public_hash: sha256_hex(public_secret),
            private_hash: sha256_hex(private_secret),
            name: String::from_str(CLIENT_NAME),
            platform,
            version: String::from_str(CLIENT_VERSION),
        }
    }

    /// Generates a new identity from two independently drawn secrets.
    pub fn generate(platform: String) -> (r: ClientInfo)
        ensures
            exists|public_secret: Seq<char>, private_secret: Seq<char>|
                {
                    &&& is_secret(public_secret)
                    &&& is_secret(private_secret)
                    &&& r.public_hash@ == sha256_hex_of(public_secret)
                    &&& r.private_hash@ == sha256_hex_of(private_secret)
                },
            r.public_hash@.len() == 64 && is_lower_hex(r.public_hash@),
            r.private_hash@.len() == 64 && is_lower_hex(r.private_hash@),
            r.name@ == CLIENT_NAME@,
            r.platform@ == platform@,
            r.version@ == CLIENT_VERSION@,
    {
        let public_secret = ClientInfo::random_secret();
        let private_secret = ClientInfo::random_secret();
        ClientInfo::from_secrets(public_secret.as_str(), private_secret.as_str(), platform)
    }
}

} // verus!
