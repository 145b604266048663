//! The JSON-RPC 2.0 response envelope.
use vstd::prelude::*;
use vstd::string::StringExecFns;

use crate::errors::{classifies, family_from, Error};

verus! {

/// The error object of a JSON-RPC response (its free-form `data` is not kept).
#[derive(Debug)]
pub struct RpcError {
    pub code: i32,
    pub message: Option<String>,
}

impl RpcError {
    pub fn code(&self) -> (r: i32)
        ensures
            r == self.code,
    {
        self.code
    }

    /// The message, or `"none"` when the server sent none.
    pub fn message(&self) -> (r: &str)
        ensures
            self.message matches Some(m) ==> r@ == m@,
            self.message is None ==> r@ == "none"@,
    {
        match &self.message {
            Some(m) => m.as_str(),
            None => "none",
        }
    }
}

/// A JSON-RPC response: a result, an error, or (in violation of the protocol) neither.
#[derive(Debug)]
pub struct RawResponse<T> {
    pub jsonrpc: String,
    pub result: Option<T>,
    pub error: Option<RpcError>,
    pub id: String,
}

impl<T> RawResponse<T> {
    /// The result if there is one; else the server's error, classified by its code; else an
    /// error of code -1 naming the response id in quotes.
    pub fn result(self) -> (r: Result<T, Error>)
        ensures
            self.result is Some ==> r == Ok::<T, Error>(self.result->0),
            self.result is None && self.error is Some ==> (r matches Err(e) && e.code
                == self.error->0.code && classifies(e.code, e.kind) && (
            self.error->0.message matches Some(m) ==> e.description@ == m@)),
            self.result is None && self.error is None ==> (r matches Err(e) && e.code == -1
                && e.kind is Unknown && e.description@
                == "Neither result nor error was found. ID = \""@ + self.id@ + "\""@),
    {
        match self.result {
            Some(res) => Ok(res),
            None => match self.error {
                Some(err) => Err(Error::from_server(err.code, err.message)),
                None => {
                    proof {
                        reveal_with_fuel(family_from, 6);
                    }
                    let text = String::from_str("Neither result nor error was found. ID = \"");
                    let text = text.concat(self.id.as_str()).concat("\"");
                    Err(Error::from_server(-1, Some(text)))
                },
            },
        }
    }
}

} // verus!
