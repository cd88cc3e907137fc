use fetch_request::byte_string::ByteString;
use fetch_request::error::RequestError;
use fetch_request::field::{
    is_field_name, is_field_value, is_storable, name_is, name_starts_with, slice_to_vec,
    trim_http_whitespace,
};
use fetch_request::guard::{
    content_type_is_safelisted, essence_of, is_forbidden_request_header_name,
    is_forbidden_response_header_name, is_no_cors_safelisted, Guard, MAX_SAFELISTED_VALUE_LEN,
};
use fetch_request::header_map::{MAX_HEADERS, MAX_NAME_LEN};
use fetch_request::headers::{Headers, HeadersInit};

fn bs(text: &str) -> ByteString {
    ByteString::new(text.as_bytes().to_vec())
}

fn pair(name: &str, value: &str) -> (Vec<u8>, Vec<u8>) {
    (name.as_bytes().to_vec(), value.as_bytes().to_vec())
}

#[test]
fn new_list_is_empty_and_open() {
    let headers = Headers::new();
    assert_eq!(headers.get_guard(), Guard::Open);
    assert_eq!(headers.len(), 0);
    assert!(headers.entries().is_empty());
    assert_eq!(headers.get_headers_list().len(), 0);
    let for_request = Headers::for_request();
    assert_eq!(for_request.get_guard(), Guard::Request);
    assert_eq!(for_request.len(), 0);
}

#[test]
fn append_lowers_the_name_and_trims_the_value() {
    let mut headers = Headers::new();
    assert_eq!(headers.append(&bs("X-Test"), &bs(" \t one two \r\n")), Ok(()));
    assert_eq!(headers.entries(), vec![pair("x-test", "one two")]);
    assert_eq!(headers.len(), 1);
    let list = headers.get_headers_list();
    assert_eq!(list.get("x-test").unwrap().as_bytes(), b"one two");
}

#[test]
fn append_keeps_the_values_of_one_name_together() {
    let mut headers = Headers::new();
    headers.append(&bs("a"), &bs("1")).unwrap();
    headers.append(&bs("b"), &bs("2")).unwrap();
    headers.append(&bs("A"), &bs("3")).unwrap();
    headers.append(&bs("c"), &bs("4")).unwrap();
    headers.append(&bs("b"), &bs("5")).unwrap();
    assert_eq!(
        headers.entries(),
        vec![pair("a", "1"), pair("a", "3"), pair("b", "2"), pair("b", "5"), pair("c", "4")]
    );
    assert_eq!(headers.len(), 5);
    let list = headers.get_headers_list();
    let of_a: Vec<&[u8]> = list.get_all("a").iter().map(|v| v.as_bytes()).collect();
    assert_eq!(of_a, vec![&b"1"[..], &b"3"[..]]);
}

#[test]
fn append_takes_an_empty_value() {
    let mut headers = Headers::new();
    assert_eq!(headers.append(&bs("x-empty"), &bs("  ")), Ok(()));
    assert_eq!(headers.entries(), vec![pair("x-empty", "")]);
}

#[test]
fn has_ignores_case_and_refuses_what_is_no_name() {
    let mut headers = Headers::new();
    headers.append(&bs("Content-Type"), &bs("text/plain")).unwrap();
    assert_eq!(headers.has(&bs("content-type")), Ok(true));
    assert_eq!(headers.has(&bs("CONTENT-TYPE")), Ok(true));
    assert_eq!(headers.has(&bs("content-length")), Ok(false));
    assert_eq!(headers.has(&bs("content type")), Err(RequestError::HeaderNameInvalid));
    assert_eq!(headers.has(&bs("")), Err(RequestError::HeaderNameInvalid));
}

#[test]
fn append_refuses_malformed_names_and_values() {
    let mut headers = Headers::new();
    for name in ["", "a b", "a:b", "a(b)", "caf\u{e9}", "a\"b"] {
        assert_eq!(headers.append(&bs(name), &bs("v")), Err(RequestError::HeaderNameInvalid));
    }
    let long = "a".repeat(MAX_NAME_LEN + 1);
    assert_eq!(headers.append(&bs(&long), &bs("v")), Err(RequestError::HeaderNameInvalid));
    for value in ["a\nb", "a\rb", "a\0b"] {
        assert_eq!(headers.append(&bs("x"), &bs(value)), Err(RequestError::HeaderValueInvalid));
    }
    assert_eq!(headers.append(&bs(""), &bs("a\nb")), Err(RequestError::HeaderNameInvalid));
    assert!(headers.entries().is_empty());
    let longest = "a".repeat(MAX_NAME_LEN);
    assert_eq!(headers.append(&bs(&longest), &bs("v")), Ok(()));
    assert_eq!(headers.len(), 1);
}

#[test]
fn append_passes_over_a_value_that_cannot_be_stored() {
    let mut headers = Headers::new();
    assert_eq!(headers.append_bytes(b"x-ctl", b"a\x01b"), Ok(()));
    assert_eq!(headers.append_bytes(b"x-del", b"a\x7fb"), Ok(()));
    assert!(headers.entries().is_empty());
    assert_eq!(headers.append_bytes(b"x-tab", b"a\tb"), Ok(()));
    assert_eq!(headers.append_bytes(b"x-high", b"a\xffb"), Ok(()));
    assert_eq!(
        headers.entries(),
        vec![(b"x-tab".to_vec(), b"a\tb".to_vec()), (b"x-high".to_vec(), b"a\xffb".to_vec())]
    );
}

#[test]
fn immutable_list_takes_nothing() {
    let mut headers = Headers::new();
    headers.append(&bs("a"), &bs("1")).unwrap();
    headers.set_guard(Guard::Immutable);
    assert_eq!(headers.get_guard(), Guard::Immutable);
    assert_eq!(headers.append(&bs("b"), &bs("2")), Err(RequestError::GuardImmutable));
    assert_eq!(headers.append(&bs("bad name"), &bs("2")), Err(RequestError::HeaderNameInvalid));
    assert_eq!(headers.entries(), vec![pair("a", "1")]);
    assert_eq!(headers.has(&bs("a")), Ok(true));
}

#[test]
fn request_guard_passes_over_forbidden_names() {
    let mut headers = Headers::for_request();
    for name in ["Cookie", "host", "Content-Length", "Sec-Fetch-Mode", "proxy-authorization", "Via"] {
        assert_eq!(headers.append(&bs(name), &bs("v")), Ok(()));
    }
    assert!(headers.entries().is_empty());
    assert_eq!(headers.append(&bs("Set-Cookie2"), &bs("v")), Ok(()));
    assert_eq!(headers.append(&bs("X-Sec-"), &bs("v")), Ok(()));
    assert_eq!(headers.entries(), vec![pair("set-cookie2", "v"), pair("x-sec-", "v")]);
}

#[test]
fn response_guard_passes_over_the_cookie_setters() {
    let mut headers = Headers::new();
    headers.set_guard(Guard::Response);
    assert_eq!(headers.append(&bs("Set-Cookie"), &bs("a=b")), Ok(()));
    assert_eq!(headers.append(&bs("set-cookie2"), &bs("a=b")), Ok(()));
    assert_eq!(headers.append(&bs("Cookie"), &bs("a=b")), Ok(()));
    assert_eq!(headers.entries(), vec![pair("cookie", "a=b")]);
}

#[test]
fn no_cors_guard_takes_safelisted_headers_only() {
    let mut headers = Headers::new();
    headers.set_guard(Guard::RequestNoCors);
    assert_eq!(headers.append(&bs("X-Test"), &bs("1")), Ok(()));
    assert_eq!(headers.append(&bs("Range"), &bs("bytes=0-")), Ok(()));
    assert_eq!(headers.append(&bs("Accept"), &bs("text/html")), Ok(()));
    assert_eq!(headers.append(&bs("Accept"), &bs("a(b)")), Ok(()));
    assert_eq!(headers.append(&bs("Accept-Language"), &bs("en-GB, en;q=0.8")), Ok(()));
    assert_eq!(headers.append(&bs("Content-Language"), &bs("en_GB")), Ok(()));
    assert_eq!(headers.append(&bs("Content-Type"), &bs("Text/Plain ; charset=utf-8")), Ok(()));
    assert_eq!(
        headers.entries(),
        vec![
            pair("accept", "text/html"),
            pair("accept-language", "en-GB, en;q=0.8"),
            pair("content-type", "Text/Plain ; charset=utf-8"),
        ]
    );
}

#[test]
fn no_cors_guard_measures_all_values_of_a_name_together() {
    let mut headers = Headers::new();
    headers.set_guard(Guard::RequestNoCors);
    let sixty = "a".repeat(60);
    assert_eq!(headers.append(&bs("Accept"), &bs(&sixty)), Ok(()));
    assert_eq!(headers.append(&bs("Accept"), &bs(&sixty)), Ok(()));
    assert_eq!(headers.len(), 2);
    assert_eq!(headers.append(&bs("Accept"), &bs("aaaaa")), Ok(()));
    assert_eq!(headers.len(), 2);
    assert_eq!(headers.append(&bs("Accept"), &bs("aaaa")), Ok(()));
    assert_eq!(headers.len(), 3);
    let mut single = Headers::new();
    single.set_guard(Guard::RequestNoCors);
    assert_eq!(single.append(&bs("Accept"), &bs(&"a".repeat(MAX_SAFELISTED_VALUE_LEN + 1))), Ok(()));
    assert_eq!(single.len(), 0);
    assert_eq!(single.append(&bs("Accept"), &bs(&"a".repeat(MAX_SAFELISTED_VALUE_LEN))), Ok(()));
    assert_eq!(single.len(), 1);
}

#[test]
fn full_list_refuses_one_more() {
    let mut headers = Headers::new();
    for i in 0..MAX_HEADERS {
        assert_eq!(headers.append(&bs(&format!("x-{}", i % 7)), &bs(&format!("{}", i))), Ok(()));
    }
    assert_eq!(headers.len(), MAX_HEADERS);
    assert_eq!(headers.append(&bs("x-0"), &bs("more")), Err(RequestError::TooManyHeaders));
    assert_eq!(headers.append(&bs("new"), &bs("more")), Err(RequestError::TooManyHeaders));
    assert_eq!(headers.len(), MAX_HEADERS);
    assert_eq!(headers.get_headers_list().len(), MAX_HEADERS);
    assert_eq!(headers.get_headers_list().keys_len(), 7);
    let mut guarded = Headers::for_request();
    assert_eq!(guarded.copy_from_headers(&headers), Ok(()));
    assert_eq!(guarded.entries(), headers.entries());
    assert_eq!(guarded.append(&bs("cookie"), &bs("dropped")), Ok(()));
}

#[test]
fn list_takes_as_many_names_as_the_map_is_sure_to_take() {
    let mut headers = Headers::new();
    for i in 0..MAX_HEADERS {
        assert_eq!(headers.append(&bs(&format!("n{}", i)), &bs("v")), Ok(()));
    }
    assert_eq!(MAX_HEADERS, 6553);
    assert_eq!(headers.len(), MAX_HEADERS);
    assert_eq!(headers.get_headers_list().keys_len(), MAX_HEADERS);
    assert_eq!(headers.has(&bs("N6552")), Ok(true));
    assert_eq!(headers.has(&bs("n6553")), Ok(false));
    assert_eq!(headers.append(&bs("n6553"), &bs("v")), Err(RequestError::TooManyHeaders));
    assert_eq!(headers.len(), MAX_HEADERS);
}

#[test]
fn fill_from_a_sequence_and_from_a_record() {
    let mut headers = Headers::new();
    let sequence = HeadersInit::Sequence(vec![
        vec![bs("A"), bs("1")],
        vec![bs("B"), bs("2")],
        vec![bs("a"), bs("3")],
    ]);
    assert_eq!(headers.fill(Some(&sequence)), Ok(()));
    assert_eq!(headers.entries(), vec![pair("a", "1"), pair("a", "3"), pair("b", "2")]);
    let record = HeadersInit::Record(vec![(bs("C"), bs("4")), (bs("B"), bs(" 5 "))]);
    assert_eq!(headers.fill(Some(&record)), Ok(()));
    assert_eq!(
        headers.entries(),
        vec![pair("a", "1"), pair("a", "3"), pair("b", "2"), pair("b", "5"), pair("c", "4")]
    );
    assert_eq!(headers.fill(None), Ok(()));
    assert_eq!(headers.len(), 5);
}

#[test]
fn fill_stops_at_the_first_refusal() {
    let mut headers = Headers::new();
    let sequence = HeadersInit::Sequence(vec![
        vec![bs("A"), bs("1")],
        vec![bs("B")],
        vec![bs("C"), bs("3")],
    ]);
    assert_eq!(headers.fill(Some(&sequence)), Err(RequestError::HeaderPairMalformed));
    assert_eq!(headers.entries(), vec![pair("a", "1")]);
    let record = HeadersInit::Record(vec![(bs("D"), bs("4")), (bs("E"), bs("x\ny")), (bs("F"), bs("6"))]);
    assert_eq!(headers.fill(Some(&record)), Err(RequestError::HeaderValueInvalid));
    assert_eq!(headers.entries(), vec![pair("a", "1"), pair("d", "4")]);
    let empty_item = HeadersInit::Sequence(vec![vec![]]);
    assert_eq!(headers.fill(Some(&empty_item)), Err(RequestError::HeaderPairMalformed));
}

#[test]
fn copy_from_headers_copies_contents_and_not_the_guard() {
    let mut source = Headers::new();
    source.append(&bs("a"), &bs("1")).unwrap();
    source.append(&bs("cookie"), &bs("c")).unwrap();
    source.append(&bs("a"), &bs("2")).unwrap();
    source.set_guard(Guard::Immutable);
    let mut open = Headers::new();
    assert_eq!(open.copy_from_headers(&source), Ok(()));
    assert_eq!(open.get_guard(), Guard::Open);
    assert_eq!(open.entries(), source.entries());
    assert_eq!(open.entries(), vec![pair("a", "1"), pair("a", "2"), pair("cookie", "c")]);
    let mut guarded = Headers::for_request();
    assert_eq!(guarded.copy_from_headers(&source), Ok(()));
    assert_eq!(guarded.entries(), vec![pair("a", "1"), pair("a", "2")]);
    open.append(&bs("b"), &bs("3")).unwrap();
    assert_eq!(source.len(), 3);
    assert_eq!(open.len(), 4);
    let mut frozen = Headers::new();
    frozen.set_guard(Guard::Immutable);
    assert_eq!(frozen.copy_from_headers(&source), Err(RequestError::GuardImmutable));
    assert_eq!(frozen.copy_from_headers(&Headers::new()), Ok(()));
}

#[test]
fn header_list_copy_is_a_copy() {
    let mut headers = Headers::new();
    headers.append(&bs("a"), &bs("1")).unwrap();
    let list = headers.get_headers_list();
    headers.append(&bs("b"), &bs("2")).unwrap();
    assert_eq!(list.len(), 1);
    assert!(list.contains_key("a"));
    assert!(!list.contains_key("b"));
    assert_eq!(headers.get_headers_list().len(), 2);
}

#[test]
fn whitespace_is_trimmed_at_both_ends_only() {
    assert_eq!(trim_http_whitespace(b""), b"".to_vec());
    assert_eq!(trim_http_whitespace(b" \t\r\n"), b"".to_vec());
    assert_eq!(trim_http_whitespace(b"a"), b"a".to_vec());
    assert_eq!(trim_http_whitespace(b"  a b\t c \n"), b"a b\t c".to_vec());
    assert_eq!(trim_http_whitespace(b"\x0ba\x0c"), b"\x0ba\x0c".to_vec());
    assert_eq!(slice_to_vec(b"abcdef", 2, 4), b"cd".to_vec());
    assert_eq!(slice_to_vec(b"abcdef", 3, 3), Vec::<u8>::new());
}

#[test]
fn names_and_values_are_told_apart_from_other_bytes() {
    assert!(is_field_name(b"Content-Type"));
    assert!(is_field_name(b"!#$%&'*+-.^_`|~09azAZ"));
    assert!(!is_field_name(b""));
    assert!(!is_field_name(b"a b"));
    assert!(!is_field_name(b"a\"b"));
    assert!(!is_field_name(b"a,b"));
    assert!(!is_field_name(b"a\x7f"));
    assert!(!is_field_name(b"a\x80"));
    assert!(is_field_value(b""));
    assert!(is_field_value(b"a b"));
    assert!(is_field_value(b"a\x01b"));
    assert!(!is_field_value(b" a"));
    assert!(!is_field_value(b"a\t"));
    assert!(!is_field_value(b"a\nb"));
    assert!(!is_field_value(b"a\0b"));
    assert!(is_storable(b"a b\tc\xff"));
    assert!(!is_storable(b"a\x01"));
    assert!(!is_storable(b"a\x7f"));
    assert!(!is_storable(b"\n"));
    assert!(name_is(b"host", "host"));
    assert!(!name_is(b"Host", "host"));
    assert!(!name_is(b"hosts", "host"));
    assert!(name_starts_with(b"sec-fetch", "sec-"));
    assert!(name_starts_with(b"sec-", "sec-"));
    assert!(!name_starts_with(b"sec", "sec-"));
    assert!(!name_starts_with(b"xsec-", "sec-"));
}

#[test]
fn forbidden_header_names() {
    for name in [
        "accept-charset",
        "accept-encoding",
        "access-control-request-headers",
        "access-control-request-method",
        "connection",
        "content-length",
        "cookie",
        "cookie2",
        "date",
        "dnt",
        "expect",
        "host",
        "keep-alive",
        "origin",
        "referer",
        "set-cookie",
        "te",
        "trailer",
        "transfer-encoding",
        "upgrade",
        "via",
        "proxy-",
        "proxy-connection",
        "sec-",
        "sec-websocket-key",
    ] {
        assert!(is_forbidden_request_header_name(name.as_bytes()), "{}", name);
    }
    for name in ["accept", "content-type", "set-cookie2", "proxy", "sec", "x-host", "hostx", "t"] {
        assert!(!is_forbidden_request_header_name(name.as_bytes()), "{}", name);
    }
    assert!(is_forbidden_response_header_name(b"set-cookie"));
    assert!(is_forbidden_response_header_name(b"set-cookie2"));
    assert!(!is_forbidden_response_header_name(b"cookie"));
    assert!(!is_forbidden_response_header_name(b"set-cookie3"));
}

#[test]
fn essence_of_a_media_type() {
    assert_eq!(essence_of(b"text/plain"), b"text/plain".to_vec());
    assert_eq!(essence_of(b"  Text/PLAIN ; charset=UTF-8 "), b"text/plain".to_vec());
    assert_eq!(essence_of(b"multipart/form-data;boundary=x;y"), b"multipart/form-data".to_vec());
    assert_eq!(essence_of(b";charset=utf-8"), b"".to_vec());
    assert_eq!(essence_of(b""), b"".to_vec());
}

#[test]
fn safelisted_content_types() {
    assert!(content_type_is_safelisted(b"text/plain"));
    assert!(content_type_is_safelisted(b"TEXT/PLAIN;charset=utf-8"));
    assert!(content_type_is_safelisted(b"application/x-www-form-urlencoded"));
    assert!(content_type_is_safelisted(b" multipart/form-data ; boundary=abc"));
    assert!(!content_type_is_safelisted(b"application/json"));
    assert!(!content_type_is_safelisted(b"text/plain2"));
    assert!(!content_type_is_safelisted(b"text/plain;a=\"b\""));
    assert!(!content_type_is_safelisted(b"text/plain;a=(b)"));
    assert!(!content_type_is_safelisted(b""));
}

#[test]
fn no_cors_safelist() {
    assert!(is_no_cors_safelisted(b"accept", b"*/*"));
    assert!(is_no_cors_safelisted(b"accept", b"a\tb"));
    assert!(!is_no_cors_safelisted(b"accept", b"a:b"));
    assert!(!is_no_cors_safelisted(b"accept", b"a\x01b"));
    assert!(!is_no_cors_safelisted(b"accept", b"a\x7fb"));
    assert!(is_no_cors_safelisted(b"accept-language", b"en-US,en;q=0.5 *.="));
    assert!(!is_no_cors_safelisted(b"accept-language", b"en_US"));
    assert!(is_no_cors_safelisted(b"content-language", b"de"));
    assert!(!is_no_cors_safelisted(b"content-language", b"de/at"));
    assert!(is_no_cors_safelisted(b"content-type", b"text/plain"));
    assert!(!is_no_cors_safelisted(b"content-type", b"text/html"));
    assert!(!is_no_cors_safelisted(b"Accept", b"*/*"));
    assert!(!is_no_cors_safelisted(b"range", b"bytes=0-10"));
    assert!(!is_no_cors_safelisted(b"x-test", b"1"));
    assert!(is_no_cors_safelisted(b"accept", "a".repeat(128).as_bytes()));
    assert!(!is_no_cors_safelisted(b"accept", "a".repeat(129).as_bytes()));
    assert!(is_no_cors_safelisted(b"accept", b""));
}
