use socialvoid::cdn::cdn_form_fields;
use socialvoid::{get_cdn_url, get_host, CdnAction, CdnResponse, ErrorKind, SessionIdentification};

#[test]
fn success_without_results_is_an_error() {
    let resp: CdnResponse<u32> =
        CdnResponse { success: true, error_code: None, message: None, results: None };
    let err = resp.results().unwrap_err();
    assert!(matches!(err.kind, ErrorKind::Unknown));
    assert_eq!(err.code, -1);
    assert_eq!(err.description, "CDN Error: Success is true but no results found");
}

#[test]
fn success_with_results() {
    let resp = CdnResponse { success: true, error_code: None, message: None, results: Some(7u32) };
    assert_eq!(resp.results().unwrap(), 7);
}

#[test]
fn failure_carries_code_and_message() {
    let resp: CdnResponse<u32> = CdnResponse {
        success: false,
        error_code: Some(8711),
        message: Some("bad answer".to_string()),
        results: Some(3),
    };
    let err = resp.results().unwrap_err();
    assert_eq!(err.code, 8711);
    assert_eq!(err.description, "CDN error occurred");
    match err.kind {
        ErrorKind::Cdn(m) => assert_eq!(m, "bad answer"),
        other => panic!("unexpected kind {:?}", other),
    }
    let resp: CdnResponse<u32> =
        CdnResponse { success: false, error_code: None, message: None, results: None };
    let err = resp.results().unwrap_err();
    assert_eq!(err.code, 0);
    assert!(matches!(err.kind, ErrorKind::Cdn(ref m) if m.is_empty()));
}

#[test]
fn form_fields_identify_the_session() {
    let id = SessionIdentification {
        session_id: "sid".to_string(),
        client_public_hash: "pub".to_string(),
        challenge_answer: "ans".to_string(),
    };
    let fields = cdn_form_fields(id, CdnAction::Download);
    let expected = vec![
        ("client_public_hash".to_string(), "pub".to_string()),
        ("session_id".to_string(), "sid".to_string()),
        ("challenge_answer".to_string(), "ans".to_string()),
        ("action".to_string(), "download".to_string()),
    ];
    assert_eq!(fields, expected);
    assert_eq!(CdnAction::Upload.name(), "upload");
}

#[test]
fn default_endpoints() {
    assert_eq!(get_host(), "http://socialvoid.qlg1.com:5601/");
    assert_eq!(get_cdn_url(), "http://socialvoid.qlg1.com:5602/");
}
