use java_runtimes::auth::auth_code_from_redirect;
use java_runtimes::http::{default_response_type, request_method, wants_bytes, HttpMethod};
use java_runtimes::text::{first_line_of, split_str, trim_of};

#[test]
fn default_response_type_is_text() {
    assert_eq!(default_response_type(), "text");
}

#[test]
fn methods_match_without_case() {
    assert!(request_method(&None) == Ok(HttpMethod::Get));
    assert!(request_method(&Some("post".to_string())) == Ok(HttpMethod::Post));
    assert!(request_method(&Some("Delete".to_string())) == Ok(HttpMethod::Delete));
    assert!(request_method(&Some("HEAD".to_string())) == Ok(HttpMethod::Head));
    assert!(request_method(&Some("patch".to_string())) == Ok(HttpMethod::Patch));
    assert!(request_method(&Some("put".to_string())) == Ok(HttpMethod::Put));
}

#[test]
fn unsupported_method_is_named() {
    match request_method(&Some("trace".to_string())) {
        Err(e) => assert_eq!(e, "Unsupported HTTP method: trace"),
        Ok(_) => panic!("trace accepted"),
    }
}

#[test]
fn bytes_response_type_any_case() {
    assert!(wants_bytes("BYTES"));
    assert!(wants_bytes("bytes"));
    assert!(!wants_bytes("text"));
}

#[test]
fn auth_code_is_read_from_redirect() {
    let url = "https://login.live.com/oauth20_desktop.srf?lc=1033&code=M.C1_abc&state=x";
    assert_eq!(auth_code_from_redirect(url), Some("M.C1_abc".to_string()));
    assert_eq!(auth_code_from_redirect("https://login.live.com/oauth20_desktop.srf?lc=1033"), None);
    assert_eq!(auth_code_from_redirect("https://example.com/?code=1"), None);
}

#[test]
fn text_helpers() {
    assert_eq!(trim_of("\u{3000} a b \n"), "a b");
    assert_eq!(trim_of("   "), "");
    assert_eq!(first_line_of("a\r\nb"), Some("a".to_string()));
    assert_eq!(first_line_of("a\r"), Some("a\r".to_string()));
    assert_eq!(first_line_of("\nb"), Some(String::new()));
    assert_eq!(first_line_of(""), None);
    assert_eq!(split_str("a::b", ':'), vec!["a", "", "b"]);
    assert_eq!(split_str("", ':'), vec![""]);
}
