use socialvoid::config::strip_line_ending;
use socialvoid::rpc::{RawResponse, RpcError};
use socialvoid::{AuthenticationError, Error, ErrorKind};

#[test]
fn response_with_result() {
    let resp = RawResponse {
        jsonrpc: "2.0".to_string(),
        result: Some(true),
        error: None,
        id: "1".to_string(),
    };
    assert_eq!(resp.result().unwrap(), true);
}

#[test]
fn response_with_error_is_classified() {
    let resp: RawResponse<bool> = RawResponse {
        jsonrpc: "2.0".to_string(),
        result: None,
        error: Some(RpcError { code: 8707, message: Some("Session not found".to_string()) }),
        id: "2".to_string(),
    };
    let err = resp.result().unwrap_err();
    assert_eq!(err.code, 8707);
    assert_eq!(err.description, "Session not found");
    assert!(matches!(err.kind, ErrorKind::Authentication(AuthenticationError::SessionNotFound)));
    assert!(err.kind.invalidates_session());
}

#[test]
fn response_with_neither() {
    let resp: RawResponse<bool> =
        RawResponse { jsonrpc: "2.0".to_string(), result: None, error: None, id: "abc".to_string() };
    let err = resp.result().unwrap_err();
    assert_eq!(err.code, -1);
    assert!(matches!(err.kind, ErrorKind::Unknown));
    assert_eq!(err.description, "Neither result nor error was found. ID = \"abc\"");
}

#[test]
fn rpc_error_accessors() {
    let e = RpcError { code: -32601, message: None };
    assert_eq!(e.code(), -32601);
    assert_eq!(e.message(), "none");
    let e = RpcError { code: 1, message: Some("boom".to_string()) };
    assert_eq!(e.message(), "boom");
}

#[test]
fn transport_error_constructors() {
    let e = Error::json_parsing();
    assert!(matches!(e.kind, ErrorKind::JsonParsing));
    assert_eq!(e.description, "JSON Parsing error");
    assert!(matches!(Error::request_failed().kind, ErrorKind::Request));
    assert!(matches!(Error::io_failed().kind, ErrorKind::Io));
    assert_eq!(Error::io_failed().code, -1);
}

#[test]
fn line_endings_are_stripped() {
    assert_eq!(strip_line_ending("alice\n"), "alice");
    assert_eq!(strip_line_ending("alice\r\n"), "alice");
    assert_eq!(strip_line_ending("alice"), "alice");
    assert_eq!(strip_line_ending("alice\n\n"), "alice\n");
    assert_eq!(strip_line_ending("\r"), "");
    assert_eq!(strip_line_ending(""), "");
    assert_eq!(strip_line_ending("héllo\n"), "héllo");
}
