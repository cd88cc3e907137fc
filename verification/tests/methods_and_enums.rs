use fetch_request::body::{BodyStream, ExtractedBody, RequestBody};
use fetch_request::byte_string::{
    ascii_bytes, bytes_eq, eq_ignore_ascii_case, str_eq, to_lower_byte, to_lower_bytes, to_vec,
    ByteString,
};
use fetch_request::descriptor::{
    net_request_from_global, GlobalScope, HttpsState, InsecureRequestsPolicy, Origin, Referrer,
    Window,
};
use fetch_request::error::RequestError;
use fetch_request::host::{
    ReferrerPolicy, RequestCache, RequestCredentials, RequestDestination, RequestMode,
    RequestRedirect,
};
use fetch_request::init::{RequestInit, WindowInit};
use fetch_request::method::{
    is_cors_safelisted_method, is_forbidden_method, is_method, normalize_method, Method,
};
use fetch_request::normalize::{method_from, mode_from, referrer_from, window_from};
use fetch_request::transport::{
    CacheMode, CredentialsMode, Destination, RedirectMode, TransportMode,
    TransportReferrerPolicy,
};
use fetch_request::web_url::{includes_credentials, Url, UrlOrigin};

fn bs(text: &str) -> ByteString {
    ByteString::new(text.as_bytes().to_vec())
}

fn base_url() -> Url {
    Url {
        href: "https://example.com/dir/page".to_string(),
        scheme: "https".to_string(),
        username: String::new(),
        password: None,
        path: "/dir/page".to_string(),
        cannot_be_a_base: false,
        origin: UrlOrigin::Tuple {
            scheme: "https".to_string(),
            host: "example.com".to_string(),
            port: 443,
        },
    }
}

fn global() -> GlobalScope {
    GlobalScope {
        api_base_url: base_url(),
        url: base_url(),
        referrer: Referrer::ReferrerUrl(base_url()),
        pipeline_id: 11,
        webview_id: 5,
        https_state: HttpsState::Deprecated,
        insecure_requests_policy: InsecureRequestsPolicy::Upgrade,
        has_trustworthy_ancestor_or_current_origin: false,
    }
}

#[test]
fn common_methods_come_out_in_capitals() {
    for (given, stored) in [
        ("delete", "DELETE"),
        ("Get", "GET"),
        ("hEAD", "HEAD"),
        ("options", "OPTIONS"),
        ("post", "POST"),
        ("PUT", "PUT"),
    ] {
        let method = normalize_method(given).ok().unwrap();
        assert_eq!(method.as_bytes(), stored.as_bytes());
    }
}

#[test]
fn other_tokens_are_methods_as_written() {
    for given in ["patch", "PATCH", "QUERY", "query", "M-SEARCH", "a", "averyveryverylongmethodname", "!#$%&'*+-.^_`|~"] {
        let method = normalize_method(given).ok().unwrap();
        assert_eq!(method.as_bytes(), given.as_bytes());
    }
}

#[test]
fn what_is_no_token_is_no_method() {
    for given in ["", " ", "GET ", "a b", "a/b", "a:b", "m\u{e9}thode", "a\0", "(a)"] {
        assert!(normalize_method(given).is_err(), "{:?}", given);
    }
}

#[test]
fn method_predicates() {
    assert!(is_method(&bs("GET")));
    assert!(is_method(&bs("get")));
    assert!(is_method(&bs("x")));
    assert!(is_method(&bs("TRACE")));
    assert!(is_method(&bs("M-SEARCH")));
    assert!(is_method(&bs("!#$%&'*+-.^_`|~09azAZ")));
    assert!(!is_method(&bs("")));
    assert!(!is_method(&bs("not a token")));
    assert!(!is_method(&bs("GET ")));
    assert!(!is_method(&bs("a/b")));
    assert!(!is_method(&bs("a\0")));
    assert!(!is_method(&bs("m\u{e9}thode")));
    assert!(!is_method(&ByteString::new(vec![0x80])));
    assert!(!is_method(&ByteString::new(vec![b'G', 0xc3])));
    assert!(!is_method(&ByteString::new(vec![b'G', 0x7f])));
    for forbidden in ["CONNECT", "connect", "Trace", "TRACK", "tRaCk"] {
        assert!(is_forbidden_method(&bs(forbidden)));
    }
    for allowed in ["GET", "TRACES", "TRAC", "CONNECT ", "", "track1"] {
        assert!(!is_forbidden_method(&bs(allowed)));
    }
    assert!(is_cors_safelisted_method(&Method::get()));
    assert!(is_cors_safelisted_method(&Method::head()));
    assert!(is_cors_safelisted_method(&Method::post()));
    assert!(!is_cors_safelisted_method(&Method::put()));
    assert!(!is_cors_safelisted_method(&Method::delete()));
    assert!(!is_cors_safelisted_method(&Method::options()));
    assert!(!is_cors_safelisted_method(&normalize_method("get2").ok().unwrap()));
}

#[test]
fn method_values() {
    assert_eq!(Method::delete().as_bytes(), b"DELETE");
    assert_eq!(Method::get().as_bytes(), b"GET");
    assert_eq!(Method::head().as_bytes(), b"HEAD");
    assert_eq!(Method::options().as_bytes(), b"OPTIONS");
    assert_eq!(Method::post().as_bytes(), b"POST");
    assert_eq!(Method::put().as_bytes(), b"PUT");
    assert!(Method::get().is_get() && !Method::get().is_head() && !Method::get().is_post());
    assert!(Method::head().is_head() && !Method::head().is_get());
    assert!(Method::post().is_post() && !Method::post().is_head());
    assert_eq!(Method::put().duplicate().as_bytes(), b"PUT");
}

#[test]
fn method_from_bytes_names_the_check_that_failed() {
    assert_eq!(method_from(&ByteString::new(vec![0xff])).err(), Some(RequestError::MethodNotToken));
    assert_eq!(method_from(&bs("a b")).err(), Some(RequestError::MethodNotToken));
    assert_eq!(method_from(&bs("")).err(), Some(RequestError::MethodNotToken));
    assert_eq!(method_from(&bs("trace ")).err(), Some(RequestError::MethodNotToken));
    assert_eq!(method_from(&bs("trace")).err(), Some(RequestError::MethodForbidden));
    assert_eq!(method_from(&bs("CONNECT")).err(), Some(RequestError::MethodForbidden));
    assert_eq!(method_from(&bs("put")).ok().unwrap().as_bytes(), b"PUT");
    assert_eq!(method_from(&bs("pUt")).ok().unwrap().as_bytes(), b"PUT");
    assert_eq!(method_from(&bs("patch")).ok().unwrap().as_bytes(), b"patch");
}

#[test]
fn byte_string_helpers() {
    let mixed = bs("Hello-World_42");
    assert_eq!(mixed.len(), 14);
    assert_eq!(mixed.as_bytes(), b"Hello-World_42");
    assert_eq!(mixed.to_lower().0, b"hello-world_42".to_vec());
    assert_eq!(mixed.as_str(), Some("Hello-World_42"));
    assert_eq!(mixed.duplicate().0, mixed.0);
    assert!(mixed.eq_ignore_case(&bs("hELLO-wORLD_42")));
    assert!(!mixed.eq_ignore_case(&bs("hello-world-42")));
    assert_eq!(ByteString::new(vec![0xc3, 0x28]).as_str(), None);
    assert_eq!(ByteString::new(vec![0xc3, 0xa9]).as_str(), Some("\u{e9}"));
    assert_eq!(to_lower_byte(b'A'), b'a');
    assert_eq!(to_lower_byte(b'Z'), b'z');
    assert_eq!(to_lower_byte(b'@'), b'@');
    assert_eq!(to_lower_byte(b'['), b'[');
    assert_eq!(to_lower_byte(0xc9), 0xc9);
    assert_eq!(to_lower_bytes(b"AbC-1\xc9"), b"abc-1\xc9".to_vec());
    assert!(bytes_eq(b"abc", b"abc"));
    assert!(!bytes_eq(b"abc", b"abd"));
    assert!(!bytes_eq(b"abc", b"ab"));
    assert!(bytes_eq(b"", b""));
    assert!(eq_ignore_ascii_case(b"Content-TYPE", b"content-type"));
    assert!(!eq_ignore_ascii_case(b"content-type", b"content_type"));
    assert!(!eq_ignore_ascii_case(b"@", b"`"));
    assert!(str_eq("about", "about"));
    assert!(!str_eq("about", "About"));
    assert!(!str_eq("about", "abou"));
    assert_eq!(ascii_bytes("GET"), b"GET");
    assert_eq!(to_vec(b"xyz"), b"xyz".to_vec());
}

#[test]
fn enumerations_survive_the_round_trip() {
    for v in [
        RequestCache::Default,
        RequestCache::NoStore,
        RequestCache::Reload,
        RequestCache::NoCache,
        RequestCache::ForceCache,
        RequestCache::OnlyIfCached,
    ] {
        assert_eq!(v.convert().convert(), v);
    }
    for v in [RequestCredentials::Omit, RequestCredentials::SameOrigin, RequestCredentials::Include] {
        assert_eq!(v.convert().convert(), v);
    }
    for v in [RequestRedirect::Follow, RequestRedirect::Error, RequestRedirect::Manual] {
        assert_eq!(v.convert().convert(), v);
    }
    for v in [RequestMode::Navigate, RequestMode::SameOrigin, RequestMode::NoCors, RequestMode::Cors] {
        assert_eq!(v.convert().convert(), v);
    }
    for v in [
        ReferrerPolicy::Empty,
        ReferrerPolicy::NoReferrer,
        ReferrerPolicy::NoReferrerWhenDowngrade,
        ReferrerPolicy::Origin,
        ReferrerPolicy::OriginWhenCrossOrigin,
        ReferrerPolicy::UnsafeUrl,
        ReferrerPolicy::SameOrigin,
        ReferrerPolicy::StrictOrigin,
        ReferrerPolicy::StrictOriginWhenCrossOrigin,
    ] {
        assert_eq!(v.convert().convert(), v);
    }
    for v in [
        RequestDestination::Empty,
        RequestDestination::Audio,
        RequestDestination::Document,
        RequestDestination::Embed,
        RequestDestination::Font,
        RequestDestination::Frame,
        RequestDestination::Iframe,
        RequestDestination::Image,
        RequestDestination::Manifest,
        RequestDestination::Json,
        RequestDestination::Object,
        RequestDestination::Report,
        RequestDestination::Script,
        RequestDestination::Sharedworker,
        RequestDestination::Style,
        RequestDestination::Track,
        RequestDestination::Video,
        RequestDestination::Worker,
        RequestDestination::Xslt,
    ] {
        assert_eq!(v.convert().convert(), v);
    }
}

#[test]
fn each_enumeration_value_has_its_counterpart() {
    assert_eq!(RequestCache::NoStore.convert(), CacheMode::NoStore);
    assert_eq!(RequestCache::OnlyIfCached.convert(), CacheMode::OnlyIfCached);
    assert_eq!(CacheMode::ForceCache.convert(), RequestCache::ForceCache);
    assert_eq!(RequestCredentials::SameOrigin.convert(), CredentialsMode::CredentialsSameOrigin);
    assert_eq!(CredentialsMode::Include.convert(), RequestCredentials::Include);
    assert_eq!(RequestMode::Cors.convert(), TransportMode::CorsMode);
    assert_eq!(RequestMode::Navigate.convert(), TransportMode::Navigate);
    assert_eq!(TransportMode::NoCors.convert(), RequestMode::NoCors);
    assert_eq!(RequestRedirect::Error.convert(), RedirectMode::Error);
    assert_eq!(RedirectMode::Manual.convert(), RequestRedirect::Manual);
    assert_eq!(ReferrerPolicy::Empty.convert(), TransportReferrerPolicy::EmptyString);
    assert_eq!(
        TransportReferrerPolicy::StrictOriginWhenCrossOrigin.convert(),
        ReferrerPolicy::StrictOriginWhenCrossOrigin
    );
    assert_eq!(RequestDestination::Empty.convert(), Destination::Empty);
    assert_eq!(RequestDestination::Iframe.convert(), Destination::IFrame);
    assert_eq!(RequestDestination::Sharedworker.convert(), Destination::SharedWorker);
    assert_eq!(Destination::Xslt.convert(), RequestDestination::Xslt);
    assert_eq!(Destination::WebIdentity.convert(), RequestDestination::Empty);
    assert_eq!(Destination::Empty.convert(), RequestDestination::Empty);
}

#[test]
fn transport_destinations_with_an_image_come_back() {
    for v in [
        Destination::Empty,
        Destination::Audio,
        Destination::Document,
        Destination::Embed,
        Destination::Font,
        Destination::Frame,
        Destination::IFrame,
        Destination::Image,
        Destination::Json,
        Destination::Manifest,
        Destination::Object,
        Destination::Report,
        Destination::Script,
        Destination::SharedWorker,
        Destination::Style,
        Destination::Track,
        Destination::Video,
        Destination::Worker,
        Destination::Xslt,
    ] {
        assert_eq!(v.convert().convert(), v);
    }
    for v in [TransportMode::Navigate, TransportMode::SameOrigin, TransportMode::NoCors, TransportMode::CorsMode] {
        assert_eq!(v.convert().convert(), v);
    }
}

#[test]
fn error_messages() {
    assert_eq!(RequestError::UrlNotParsed.message(), "Url could not be parsed");
    assert_eq!(RequestError::UrlHasCredentials.message(), "Url includes credentials");
    assert_eq!(RequestError::InputDisturbedOrLocked.message(), "Input is disturbed or locked");
    assert_eq!(RequestError::WindowNotNull.message(), "Window is present and is not null");
    assert_eq!(RequestError::ReferrerNotParsed.message(), "Failed to parse referrer url");
    assert_eq!(RequestError::ModeIsNavigate.message(), "Request mode is Navigate");
    assert_eq!(
        RequestError::OnlyIfCachedNeedsSameOrigin.message(),
        "Cache is 'only-if-cached' and mode is not 'same-origin'"
    );
    assert_eq!(RequestError::MethodForbidden.message(), "Method is forbidden");
    assert_eq!(RequestError::MethodNotToken.message(), "Method is not a method");
    assert_eq!(
        RequestError::MethodNotSafelisted.message(),
        "The mode is 'no-cors' but the method is not a cors-safelisted method"
    );
    assert_eq!(
        RequestError::BodyWithGet.message(),
        "Init's body is non-null, and request method is GET"
    );
    assert_eq!(
        RequestError::BodyWithHead.message(),
        "Init's body is non-null, and request method is HEAD"
    );
    assert_eq!(RequestError::RequestLocked.message(), "Request is locked");
    assert_eq!(RequestError::RequestDisturbed.message(), "Request is disturbed");
    assert_eq!(
        RequestError::BodyDisturbedOrLocked.message(),
        "The body's stream is disturbed or locked"
    );
    assert_eq!(RequestError::HeaderNameInvalid.message(), "Name is not valid");
    assert_eq!(RequestError::HeaderValueInvalid.message(), "Header value is not valid");
    assert_eq!(RequestError::GuardImmutable.message(), "Guard is immutable");
    assert_eq!(
        RequestError::HeaderPairMalformed.message(),
        "Each header object must be a sequence of length 2"
    );
    assert_eq!(RequestError::TooManyHeaders.message(), "Too many headers");
}

#[test]
fn what_is_no_method_is_refused_by_the_parser_too() {
    let refusal = normalize_method("a b").err().unwrap();
    assert_eq!(format!("{:?}", refusal), "InvalidMethod");
    assert!(!is_method(&bs("a b")));
}

#[test]
fn url_join_resolves_as_a_browser_does() {
    let base = base_url();
    let joined = base.join("other?x=1#frag").ok().unwrap();
    assert_eq!(joined.href, "https://example.com/dir/other?x=1#frag");
    assert_eq!(joined.scheme, "https");
    assert_eq!(joined.path, "/dir/other");
    assert_eq!(joined.username, "");
    assert_eq!(joined.password, None);
    assert!(!joined.cannot_be_a_base);
    assert!(joined.origin.same_as(&base.origin));
    assert!(!includes_credentials(&joined));

    let absolute = base.join("http://user:pw@other.example:8080/p").ok().unwrap();
    assert_eq!(absolute.href, "http://user:pw@other.example:8080/p");
    assert_eq!(absolute.username, "user");
    assert_eq!(absolute.password, Some("pw".to_string()));
    assert!(includes_credentials(&absolute));
    assert!(!absolute.origin.same_as(&base.origin));
    match &absolute.origin {
        UrlOrigin::Tuple { scheme, host, port } => {
            assert_eq!(scheme, "http");
            assert_eq!(host, "other.example");
            assert_eq!(*port, 8080);
        },
        UrlOrigin::Opaque => panic!("a tuple origin was expected"),
    }

    let data = base.join("data:text/plain,hi").ok().unwrap();
    assert!(data.cannot_be_a_base);
    assert!(matches!(data.origin, UrlOrigin::Opaque));
    assert!(!data.origin.same_as(&data.origin));
    assert!(!data.is_about_client());

    let about = base.join("about:client").ok().unwrap();
    assert!(about.is_about_client());
    assert_eq!(about.duplicate().href, "about:client");
    assert!(!base.join("about:blank").ok().unwrap().is_about_client());

    assert!(base.join("https://[::1").is_err());
    let mut broken = base_url();
    broken.href = "not a url".to_string();
    assert!(broken.join("page").is_err());
}

#[test]
fn credentials_are_a_name_or_a_password() {
    let mut url = base_url();
    assert!(!includes_credentials(&url));
    url.username = "u".to_string();
    assert!(includes_credentials(&url));
    url.username = String::new();
    url.password = Some(String::new());
    assert!(includes_credentials(&url));
}

#[test]
fn origins_compare_by_scheme_host_and_port() {
    let a = UrlOrigin::Tuple { scheme: "https".to_string(), host: "a".to_string(), port: 443 };
    let same = a.duplicate();
    let other_port = UrlOrigin::Tuple { scheme: "https".to_string(), host: "a".to_string(), port: 444 };
    let other_host = UrlOrigin::Tuple { scheme: "https".to_string(), host: "b".to_string(), port: 443 };
    let other_scheme = UrlOrigin::Tuple { scheme: "http".to_string(), host: "a".to_string(), port: 443 };
    assert!(a.same_as(&same));
    assert!(!a.same_as(&other_port));
    assert!(!a.same_as(&other_host));
    assert!(!a.same_as(&other_scheme));
    assert!(!a.same_as(&UrlOrigin::Opaque));
    assert!(!UrlOrigin::Opaque.same_as(&a));
    assert!(!UrlOrigin::Opaque.same_as(&UrlOrigin::Opaque));
}

#[test]
fn seeded_descriptor() {
    let g = global();
    let target = g.api_base_url.join("/t").ok().unwrap();
    let request = net_request_from_global(&g, target);
    assert_eq!(request.method.as_bytes(), b"GET");
    assert_eq!(request.url_list.len(), 1);
    assert_eq!(request.current_url().href, "https://example.com/t");
    assert_eq!(request.headers.len(), 0);
    assert!(!request.unsafe_request);
    assert!(request.body.is_none());
    assert_eq!(request.window, Window::Client);
    assert_eq!(request.target_webview_id, Some(5));
    assert_eq!(request.destination, Destination::Empty);
    assert!(matches!(request.origin, Origin::Origin(UrlOrigin::Tuple { .. })));
    assert!(matches!(request.referrer, Referrer::ReferrerUrl(_)));
    assert_eq!(request.referrer_policy, TransportReferrerPolicy::EmptyString);
    assert_eq!(request.pipeline_id, Some(11));
    assert_eq!(request.mode, TransportMode::NoCors);
    assert_eq!(request.credentials_mode, CredentialsMode::CredentialsSameOrigin);
    assert_eq!(request.cache_mode, CacheMode::Default);
    assert_eq!(request.redirect_mode, RedirectMode::Follow);
    assert_eq!(request.integrity_metadata, "");
    assert_eq!(request.https_state, HttpsState::Deprecated);
    assert_eq!(request.insecure_requests_policy, InsecureRequestsPolicy::Upgrade);
    assert!(!request.has_trustworthy_ancestor_origin);
    let copy = request.duplicate();
    assert_eq!(copy.current_url().href, "https://example.com/t");
    assert_eq!(copy.method.as_bytes(), b"GET");
}

#[test]
fn stages_on_their_own() {
    assert_eq!(window_from(WindowInit::Absent), Ok(Window::Client));
    assert_eq!(window_from(WindowInit::Null), Ok(Window::NoWindow));
    assert_eq!(window_from(WindowInit::Object), Err(RequestError::WindowNotNull));

    assert_eq!(mode_from(TransportMode::NoCors, None, None), Ok(TransportMode::NoCors));
    assert_eq!(mode_from(TransportMode::Navigate, None, None), Ok(TransportMode::Navigate));
    assert_eq!(
        mode_from(TransportMode::NoCors, None, Some(TransportMode::CorsMode)),
        Ok(TransportMode::CorsMode)
    );
    assert_eq!(
        mode_from(TransportMode::NoCors, Some(RequestMode::SameOrigin), Some(TransportMode::CorsMode)),
        Ok(TransportMode::SameOrigin)
    );
    assert_eq!(
        mode_from(TransportMode::NoCors, Some(RequestMode::Navigate), Some(TransportMode::CorsMode)),
        Err(RequestError::ModeIsNavigate)
    );
    assert_eq!(
        mode_from(TransportMode::NoCors, None, Some(TransportMode::Navigate)),
        Err(RequestError::ModeIsNavigate)
    );

    let g = global();
    assert!(matches!(referrer_from(&g, "", None), Ok(Referrer::NoReferrer)));
    assert_eq!(referrer_from(&g, "x", None).err(), Some(RequestError::ReferrerNotParsed));
    let same = g.api_base_url.join("/r").ok().unwrap();
    match referrer_from(&g, "/r", Some(same)) {
        Ok(Referrer::ReferrerUrl(u)) => assert_eq!(u.href, "https://example.com/r"),
        other => panic!("unexpected referrer {:?}", other),
    }
    let cross = g.api_base_url.join("https://elsewhere.example/").ok().unwrap();
    match referrer_from(&g, "https://elsewhere.example/", Some(cross)) {
        Ok(Referrer::ReferrerUrl(u)) => assert_eq!(u.href, "https://example.com/dir/page"),
        other => panic!("unexpected referrer {:?}", other),
    }
}

#[test]
fn bodies() {
    let extracted = ExtractedBody {
        payload: b"abc".to_vec(),
        total_bytes: Some(3),
        content_type: Some(b"text/plain".to_vec()),
    };
    let (body, stream) = extracted.into_net_request_body();
    assert_eq!(body.payload, b"abc".to_vec());
    assert_eq!(body.total_bytes, Some(3));
    assert_eq!(stream, BodyStream::Unconsumed);
    let copy: RequestBody = body.duplicate();
    assert_eq!(copy.payload, b"abc".to_vec());
    assert_eq!(copy.total_bytes, Some(3));
    assert!(!BodyStream::Unconsumed.is_locked() && !BodyStream::Unconsumed.is_disturbed());
    assert!(BodyStream::Locked.is_locked() && !BodyStream::Locked.is_disturbed());
    assert!(!BodyStream::Consumed.is_locked() && BodyStream::Consumed.is_disturbed());
}

#[test]
fn overrides_are_counted() {
    let mut init = RequestInit::new();
    assert!(!init.has_any_override());
    init.window = WindowInit::Null;
    assert!(init.has_any_override());
    init.window = WindowInit::Absent;
    init.body = Some(None);
    assert!(init.has_any_override());
    init.body = None;
    init.integrity = Some(String::new());
    assert!(init.has_any_override());
    init.integrity = None;
    init.referrer_policy = Some(ReferrerPolicy::Empty);
    assert!(init.has_any_override());
}
