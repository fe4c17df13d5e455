use cloudflare_ddns::error::Error;
use cloudflare_ddns::http::client::{status_is_success, HttpResponse};
use cloudflare_ddns::http::headers::get_default_headers;
use cloudflare_ddns::cli::Parameters;

fn params(token: &str, email: &str) -> Parameters {
    Parameters { domain: "example.com".to_string(), email: email.to_string(), token: token.to_string() }
}

#[test]
fn success_range_is_200_to_299() {
    assert!(!status_is_success(0));
    assert!(!status_is_success(199));
    assert!(status_is_success(200));
    assert!(status_is_success(204));
    assert!(status_is_success(299));
    assert!(!status_is_success(300));
    assert!(!status_is_success(401));
    assert!(!status_is_success(u16::MAX));
}

#[test]
fn success_keeps_status_and_body() {
    let got = HttpResponse::from_status_and_body(201, "{\"result\":[]}".to_string()).unwrap();
    assert_eq!(got, HttpResponse { body: "{\"result\":[]}".to_string(), status: 201 });
}

#[test]
fn failure_keeps_status_and_raw_body() {
    let err = HttpResponse::from_status_and_body(401, "not json at all".to_string()).unwrap_err();
    assert!(matches!(
        err,
        Error::StatusCodeError { status: 401, ref body } if body == "not json at all"
    ));
}

#[test]
fn every_status_outside_the_range_is_a_status_error() {
    let mut status: u16 = 0;
    loop {
        let got = HttpResponse::from_status_and_body(status, "b".to_string());
        if (200..=299).contains(&status) {
            assert_eq!(got.unwrap().status, status);
        } else {
            match got {
                Err(Error::StatusCodeError { status: s, body }) => {
                    assert_eq!(s, status);
                    assert_eq!(body, "b");
                }
                other => panic!("status {status} gave {other:?}"),
            }
        }
        if status == 1200 {
            break;
        }
        status += 1;
    }
}

#[test]
fn default_headers_carry_both_credentials() {
    let got = get_default_headers(&params("t0k3n", "me@example.com")).unwrap();
    assert_eq!(got.len(), 2);
    assert_eq!(got.keys_len(), 2);
    let auth = got.get("authorization").unwrap();
    assert_eq!(auth.as_bytes(), b"Bearer t0k3n");
    assert!(auth.is_sensitive());
    let email = got.get("x-auth-email").unwrap();
    assert_eq!(email.as_bytes(), b"me@example.com");
    assert!(email.is_sensitive());
    assert_eq!(got.get_all("authorization").iter().count(), 1);
    assert_eq!(got.get_all("x-auth-email").iter().count(), 1);
}

#[test]
fn headers_are_set_in_order() {
    let got = get_default_headers(&params("t", "e")).unwrap();
    let names: Vec<String> = got.keys().map(|name| name.as_str().to_string()).collect();
    assert_eq!(names, vec!["authorization".to_string(), "x-auth-email".to_string()]);
}

#[test]
fn token_with_a_line_break_is_refused() {
    let err = get_default_headers(&params("bad\ntoken", "me@example.com")).unwrap_err();
    assert!(matches!(err, Error::InvalidHeaderValue(_)));
}

#[test]
fn email_with_a_control_character_is_refused() {
    let err = get_default_headers(&params("t", "me\u{7f}@example.com")).unwrap_err();
    assert!(matches!(err, Error::InvalidHeaderValue(_)));
    let err = get_default_headers(&params("t", "me\u{0}")).unwrap_err();
    assert!(matches!(err, Error::InvalidHeaderValue(_)));
}

#[test]
fn bad_token_is_reported_before_bad_email() {
    let err = get_default_headers(&params("\u{1}", "\u{2}")).unwrap_err();
    assert!(matches!(err, Error::InvalidHeaderValue(_)));
}

#[test]
fn tab_and_characters_beyond_ascii_are_accepted() {
    let got = get_default_headers(&params("a\tb", "é@example.com")).unwrap();
    assert_eq!(got.get("authorization").unwrap().as_bytes(), "Bearer a\tb".as_bytes());
    assert_eq!(got.get("x-auth-email").unwrap().as_bytes(), "é@example.com".as_bytes());
}

#[test]
fn empty_credentials_are_accepted() {
    let got = get_default_headers(&params("", "")).unwrap();
    assert_eq!(got.get("authorization").unwrap().as_bytes(), b"Bearer ");
    assert_eq!(got.get("x-auth-email").unwrap().as_bytes(), b"");
    assert!(got.get("x-auth-email").unwrap().is_sensitive());
}
