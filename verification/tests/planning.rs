use http_engine::model::{ErrorKind, HttpRequest, KeyValueItem, RequestSettings};
use http_engine::plan::{
    body_plan, client_policy, filter_headers, form_fields, is_blank, plan_request, BodyPlan,
};

fn base_request() -> HttpRequest {
    HttpRequest {
        method: String::from("GET"),
        url: String::from("http://localhost:8080/path"),
        headers: Vec::new(),
        body_type: String::from("none"),
        body: None,
        form_data: Vec::new(),
        settings: RequestSettings { follow_redirects: true, verify_ssl: true },
    }
}

fn item(key: &str, value: &str, enabled: bool) -> KeyValueItem {
    KeyValueItem { key: String::from(key), value: String::from(value), enabled }
}

#[test]
fn valid_methods_are_accepted() {
    for m in ["GET", "POST", "PUT", "DELETE", "PATCH", "OPTIONS", "HEAD", "CUSTOM-VERB!"] {
        let mut r = base_request();
        r.method = String::from(m);
        let plan = plan_request(&r).unwrap();
        assert_eq!(plan.method, m);
        assert_eq!(plan.url, "http://localhost:8080/path");
    }
}

#[test]
fn illegal_method_tokens_are_rejected() {
    for m in ["GE T", "", "GET\n", "G{}T", "POST/", "mé", " "] {
        let mut r = base_request();
        r.method = String::from(m);
        let e = plan_request(&r).unwrap_err();
        assert!(matches!(e, ErrorKind::InvalidMethod));
    }
}

#[test]
fn lowercase_and_unusual_token_methods_parse() {
    let mut r = base_request();
    r.method = String::from("get");
    assert!(plan_request(&r).is_ok());
    r.method = String::from("~^_`|.#$%&'*+-!");
    assert!(plan_request(&r).is_ok());
}

#[test]
fn malformed_header_is_dropped_and_valid_one_kept() {
    let mut r = base_request();
    r.headers = vec![
        (String::from("X Bad"), String::from("v")),
        (String::from("Valid-Header"), String::from("ok")),
    ];
    let plan = plan_request(&r).unwrap();
    assert_eq!(plan.headers, vec![(String::from("Valid-Header"), String::from("ok"))]);
}

#[test]
fn bad_header_value_is_dropped() {
    let headers = vec![
        (String::from("A"), String::from("line\nbreak")),
        (String::from("B"), String::from("fine value")),
        (String::from("C"), String::from("")),
    ];
    let kept = filter_headers(&headers);
    assert_eq!(
        kept,
        vec![
            (String::from("B"), String::from("fine value")),
            (String::from("C"), String::from("")),
        ]
    );
}

#[test]
fn header_order_and_duplicates_are_preserved() {
    let headers = vec![
        (String::from("Accept"), String::from("text/html")),
        (String::from("Accept"), String::from("application/json")),
        (String::from("Host"), String::from("example.test")),
    ];
    let kept = filter_headers(&headers);
    assert_eq!(kept, headers);
}

#[test]
fn form_data_keeps_only_enabled_nonblank_keys() {
    let mut r = base_request();
    r.body_type = String::from("form-data");
    r.form_data = vec![item("a", "1", true), item("", "2", true), item("b", "3", false)];
    let plan = plan_request(&r).unwrap();
    match plan.body {
        BodyPlan::Parts(fields) => {
            assert_eq!(fields, vec![(String::from("a"), String::from("1"))]);
        }
        _ => panic!("expected a multipart body"),
    }
}

#[test]
fn whitespace_only_key_is_dropped() {
    let items = vec![item(" \t\n", "x", true), item(" a ", "y", true)];
    let fields = form_fields(&items);
    assert_eq!(fields, vec![(String::from(" a "), String::from("y"))]);
}

#[test]
fn blank_recognizes_unicode_whitespace() {
    assert!(is_blank(""));
    assert!(is_blank(" \t\r\n"));
    assert!(is_blank("\u{00A0}\u{2003}\u{3000}"));
    assert!(!is_blank(" x "));
    assert!(!is_blank("\u{200B}")); // zero-width space does not trim away
}

#[test]
fn raw_body_is_attached_verbatim() {
    let mut r = base_request();
    r.body_type = String::from("raw");
    r.body = Some(String::from("hello"));
    let plan = plan_request(&r).unwrap();
    match plan.body {
        BodyPlan::Text(t) => assert_eq!(t, "hello"),
        _ => panic!("expected a verbatim body"),
    }
}

#[test]
fn urlencoded_body_is_attached_verbatim() {
    let mut r = base_request();
    r.body_type = String::from("x-www-form-urlencoded");
    r.body = Some(String::from("a=1&b=2"));
    match body_plan(&r) {
        BodyPlan::Text(t) => assert_eq!(t, "a=1&b=2"),
        _ => panic!("expected a verbatim body"),
    }
}

#[test]
fn raw_tag_without_body_attaches_nothing() {
    let mut r = base_request();
    r.body_type = String::from("raw");
    r.body = None;
    assert!(matches!(body_plan(&r), BodyPlan::Empty));
}

#[test]
fn unknown_body_tag_attaches_nothing() {
    let mut r = base_request();
    r.body_type = String::from("json");
    r.body = Some(String::from("{}"));
    assert!(matches!(body_plan(&r), BodyPlan::Empty));
}

#[test]
fn transport_policies_pass_through_unchanged() {
    let mut r = base_request();
    r.settings = RequestSettings { follow_redirects: false, verify_ssl: false };
    let plan = plan_request(&r).unwrap();
    assert!(!plan.follow_redirects);
    assert!(!plan.verify_ssl);
    r.settings = RequestSettings { follow_redirects: true, verify_ssl: true };
    let plan = plan_request(&r).unwrap();
    assert!(plan.follow_redirects);
    assert!(plan.verify_ssl);
}

#[test]
fn error_descriptions_match_failure_classes() {
    assert_eq!(ErrorKind::InvalidMethod.describe(), "invalid method");
    assert_eq!(ErrorKind::TransportConfigError(String::from("x")).describe(), "client build failed");
    assert_eq!(ErrorKind::RequestFailed(String::from("x")).describe(), "request failed");
    assert_eq!(ErrorKind::BodyDecodeError.describe(), "read body failed");
}

#[test]
fn policies_translate_into_transport_directives() {
    let p = client_policy(false, true);
    assert_eq!(p.redirect_limit, Some(0));
    assert!(!p.accept_invalid_certs);
    assert!(!p.accept_invalid_hostnames);

    let p = client_policy(true, false);
    assert_eq!(p.redirect_limit, None);
    assert!(p.accept_invalid_certs);
    assert!(p.accept_invalid_hostnames);
}
