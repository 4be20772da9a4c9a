use http_engine::model::ErrorKind;
use http_engine::response::{flatten_headers, normalize_response, RawHeader};

fn raw(name: &str, values: &[&[u8]]) -> RawHeader {
    RawHeader {
        name: String::from(name),
        values: values.iter().map(|v| v.to_vec()).collect(),
    }
}

#[test]
fn multi_valued_header_yields_separate_entries() {
    let headers = vec![raw("x-a", &[b"1", b"2"])];
    let res = normalize_response(200, &headers, b"body".to_vec()).unwrap();
    assert_eq!(
        res.headers,
        vec![
            (String::from("x-a"), String::from("1")),
            (String::from("x-a"), String::from("2")),
        ]
    );
}

#[test]
fn header_name_order_is_preserved_across_names() {
    let headers = vec![
        raw("content-type", &[b"text/plain"]),
        raw("x-a", &[b"1", b"2"]),
        raw("server", &[b"demo"]),
    ];
    let flat = flatten_headers(&headers);
    assert_eq!(
        flat,
        vec![
            (String::from("content-type"), String::from("text/plain")),
            (String::from("x-a"), String::from("1")),
            (String::from("x-a"), String::from("2")),
            (String::from("server"), String::from("demo")),
        ]
    );
}

#[test]
fn undisplayable_header_value_is_skipped() {
    let headers = vec![raw("x-bin", &[&[0xFFu8, 0x00], b"ok"]), raw("x-ctl", &[b"\x01"])];
    let flat = flatten_headers(&headers);
    assert_eq!(flat, vec![(String::from("x-bin"), String::from("ok"))]);
}

#[test]
fn tab_and_space_survive_in_header_values() {
    let headers = vec![raw("x-pad", &[b"a\tb c"])];
    let flat = flatten_headers(&headers);
    assert_eq!(flat, vec![(String::from("x-pad"), String::from("a\tb c"))]);
}

#[test]
fn known_status_gets_canonical_reason() {
    let res = normalize_response(404, &Vec::new(), Vec::new()).unwrap();
    assert_eq!(res.status, 404);
    assert_eq!(res.status_text, "Not Found");
    let res = normalize_response(200, &Vec::new(), Vec::new()).unwrap();
    assert_eq!(res.status_text, "OK");
    let res = normalize_response(301, &Vec::new(), Vec::new()).unwrap();
    assert_eq!(res.status_text, "Moved Permanently");
}

#[test]
fn unknown_status_gets_empty_reason() {
    let res = normalize_response(599, &Vec::new(), Vec::new()).unwrap();
    assert_eq!(res.status, 599);
    assert_eq!(res.status_text, "");
}

#[test]
fn utf8_body_is_decoded_as_text() {
    let res = normalize_response(200, &Vec::new(), "héllo wörld".as_bytes().to_vec()).unwrap();
    assert_eq!(res.body, "héllo wörld");
}

#[test]
fn empty_body_decodes_to_empty_text() {
    let res = normalize_response(204, &Vec::new(), Vec::new()).unwrap();
    assert_eq!(res.body, "");
    assert_eq!(res.status_text, "No Content");
}

#[test]
fn binary_body_fails_with_decode_error() {
    let headers = vec![raw("content-type", &[b"application/octet-stream"])];
    let e = normalize_response(200, &headers, vec![0xFF, 0xFE, 0x00, 0x01]).unwrap_err();
    assert!(matches!(e, ErrorKind::BodyDecodeError));
}

#[test]
fn truncated_utf8_fails_with_decode_error() {
    // The first two bytes of a three-byte sequence, cut short.
    let e = normalize_response(200, &Vec::new(), vec![0xE2, 0x82]).unwrap_err();
    assert!(matches!(e, ErrorKind::BodyDecodeError));
}
