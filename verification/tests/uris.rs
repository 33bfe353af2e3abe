use htmx_headers::auto_vary::HxRequestHeader;
use htmx_headers::auto_vary::Store;
use htmx_headers::header::Error;
use htmx_headers::header::HeaderValue;
use htmx_headers::request::HxCurrentUrl;
use htmx_headers::response::HxPushUrl;
use htmx_headers::response::HxRedirect;
use htmx_headers::response::HxReplaceUrl;
use htmx_headers::util::uri::decode_uri;
use htmx_headers::util::uri::encode_uri;
use htmx_headers::util::uri::Uri;
use htmx_headers::util::uri::UriExt;

fn value(bytes: &[u8]) -> HeaderValue {
    HeaderValue::from_bytes(bytes).unwrap()
}

fn uri(text: &str) -> Uri {
    Uri::parse(text.as_bytes()).unwrap()
}

#[test]
fn uri_parses_what_http_parses() {
    assert_eq!(uri("/").as_str(), "/");
    assert_eq!(uri("/a/b?x=1&y=2").as_str(), "/a/b?x=1&y=2");
    assert_eq!(uri("https://example.com/a?b=c").as_str(), "https://example.com/a?b=c");
    assert_eq!(uri("example.com").as_str(), "example.com");
    assert_eq!(uri("*").as_str(), "*");
    assert_eq!(Uri::parse(b""), Err(Error::Invalid));
    assert_eq!(Uri::parse(b"/a b"), Err(Error::Invalid));
    assert_eq!(Uri::parse(b"http://"), Err(Error::Invalid));
    assert_eq!(Uri::parse(b"/a\x00"), Err(Error::Invalid));
}

#[test]
fn uri_is_held_as_it_is_printed() {
    assert_eq!(uri("http://example.com").as_str(), "http://example.com/");
    assert_eq!(uri("/a#section").as_str(), "/a");
    assert_eq!(uri("/a?b#c").as_str(), "/a?b");
    assert_eq!(uri("/a").clone(), uri("/a"));
}

#[test]
fn uri_round_trip_through_redirect() {
    for text in [
        "/",
        "/new-url",
        "/a/b?x=1&y=2",
        "https://example.com/",
        "https://example.com/path?query=1",
        "http://user@host:8080/p",
        "example.com",
    ] {
        let header = HxRedirect::decode(&[value(text.as_bytes())]).unwrap();
        assert_eq!(header.encode().unwrap().as_bytes(), text.as_bytes());
    }
}

#[test]
fn uri_round_trip_through_push_and_replace() {
    for text in ["/", "/a?b=c", "https://example.com/x"] {
        let push = HxPushUrl::decode(&[value(text.as_bytes())]).unwrap();
        assert_eq!(push.encode().unwrap().as_bytes(), text.as_bytes());
        let replace = HxReplaceUrl::decode(&[value(text.as_bytes())]).unwrap();
        assert_eq!(replace.encode().unwrap().as_bytes(), text.as_bytes());
    }
}

#[test]
fn uri_of_a_wide_text_round_trip() {
    let text = "/stra\u{df}e?q=\u{fc}";
    let header = HxRedirect::decode(&[value(text.as_bytes())]).unwrap();
    assert_eq!(header.as_uri().as_str(), text);
    assert_eq!(header.encode().unwrap().as_bytes(), text.as_bytes());
    let push = HxPushUrl::decode(&[value(text.as_bytes())]).unwrap();
    assert_eq!(push.encode().unwrap().as_bytes(), text.as_bytes());
}

#[test]
fn uri_that_is_not_printed_as_written_comes_back_changed() {
    let header = HxRedirect::decode(&[value(b"http://example.com")]).unwrap();
    assert_eq!(header.encode().unwrap().as_bytes(), b"http://example.com/");
}

#[test]
fn header_value_to_uri_and_back() {
    let parsed = value(b"/x?y").to_uri().unwrap();
    assert_eq!(parsed.as_str(), "/x?y");
    assert_eq!(HeaderValue::from_uri(&parsed).unwrap().as_bytes(), b"/x?y");
    assert_eq!(value(b"/x y").to_uri(), Err(Error::Invalid));
    assert_eq!(value(b"/caf\xc3\xa9").to_uri().unwrap().as_str(), "/caf\u{e9}");
    assert_eq!(value(b"/caf\xe9").to_uri(), Err(Error::Invalid));
    assert_eq!(value(b"/caf\xc3").to_uri(), Err(Error::Invalid));
    assert_eq!(value(b"").to_uri(), Err(Error::Invalid));
    assert_eq!(decode_uri(&[value(b"/a")]).unwrap().as_str(), "/a");
    assert_eq!(decode_uri(&[]), Err(Error::Invalid));
    assert_eq!(decode_uri(&[value(b"/a"), value(b"/b")]), Err(Error::Invalid));
    assert_eq!(encode_uri(&uri("/a")).unwrap().as_bytes(), b"/a");
    assert_eq!(encode_uri(&uri("/caf\u{e9}")).unwrap().as_bytes(), "/caf\u{e9}".as_bytes());
}

#[test]
fn current_url_is_a_request_header() {
    assert_eq!(HxCurrentUrl::name(), "hx-current-url");
    let url = HxCurrentUrl::decode(&[value(b"https://example.com/page?tab=2")]).unwrap();
    assert_eq!(url.as_uri().as_str(), "https://example.com/page?tab=2");
    assert_eq!(url.encode(), Err(Error::WrongDirection));
    assert_eq!(HxCurrentUrl::decode(&[]), Err(Error::Invalid));
    assert_eq!(HxCurrentUrl::decode(&[value(b"not a uri")]), Err(Error::Invalid));
    assert_eq!(
        HxCurrentUrl::decode(&[value(b"/a"), value(b"/a")]),
        Err(Error::Invalid)
    );
    assert_eq!(HxCurrentUrl::from(uri("/a")), url_of("/a"));
    let back: Uri = url_of("/b").into();
    assert_eq!(back, uri("/b"));
    let mut store = Store::new();
    store.attach();
    assert!(HxCurrentUrl::from_request_parts(&mut store, &[value(b"\xff")]).is_err());
    let mut expected = Store::new();
    expected.attach();
    expected.report(HxRequestHeader::CurrentUrl);
    assert_eq!(store, expected);
}

fn url_of(text: &str) -> HxCurrentUrl {
    HxCurrentUrl::decode(&[value(text.as_bytes())]).unwrap()
}

#[test]
fn redirect_decodes_and_encodes() {
    assert_eq!(HxRedirect::name(), "hx-redirect");
    let redirect = HxRedirect::from(uri("/login"));
    assert_eq!(redirect.as_uri().as_str(), "/login");
    assert_eq!(redirect.encode().unwrap().as_bytes(), b"/login");
    assert_eq!(HxRedirect::decode(&[]), Err(Error::Invalid));
    assert_eq!(HxRedirect::decode(&[value(b"")]), Err(Error::Invalid));
    assert_eq!(
        HxRedirect::decode(&[value(b"/a"), value(b"/b")]),
        Err(Error::Invalid)
    );
    assert_eq!(HxRedirect::decode(&[value(b"/a\xe9")]), Err(Error::Invalid));
}

#[test]
fn push_url_prevents_with_false() {
    assert_eq!(HxPushUrl::name(), "hx-push-url");
    assert_eq!(HxPushUrl::prevent().get(), None);
    assert_eq!(HxPushUrl::prevent().encode().unwrap().as_bytes(), b"false");
    assert_eq!(HxPushUrl::decode(&[value(b"false")]), Ok(HxPushUrl::prevent()));
    let pushed = HxPushUrl::url(uri("/new-url"));
    assert_eq!(pushed.get().unwrap().as_str(), "/new-url");
    assert_eq!(pushed.to_header_value().unwrap().as_bytes(), b"/new-url");
    assert_eq!(HxPushUrl::from_header_value(&value(b"/new-url")), Ok(pushed));
    assert_eq!(
        HxPushUrl::decode(&[value(b"False")]).unwrap().get().unwrap().as_str(),
        "False"
    );
    assert_eq!(HxPushUrl::decode(&[]), Err(Error::Invalid));
    assert_eq!(HxPushUrl::decode(&[value(b"a b")]), Err(Error::Invalid));
    assert_eq!(
        HxPushUrl::decode(&[value(b"false"), value(b"false")]),
        Err(Error::Invalid)
    );
}

#[test]
fn replace_url_prevents_with_false() {
    assert_eq!(HxReplaceUrl::name(), "hx-replace-url");
    assert_eq!(HxReplaceUrl::prevent().get(), None);
    assert_eq!(HxReplaceUrl::prevent().encode().unwrap().as_bytes(), b"false");
    assert_eq!(
        HxReplaceUrl::decode(&[value(b"false")]),
        Ok(HxReplaceUrl::prevent())
    );
    let replaced = HxReplaceUrl::url(uri("https://example.com/x"));
    assert_eq!(replaced.get().unwrap().as_str(), "https://example.com/x");
    assert_eq!(
        replaced.to_header_value().unwrap().as_bytes(),
        b"https://example.com/x"
    );
    assert_eq!(
        HxReplaceUrl::from_header_value(&value(b"https://example.com/x")),
        Ok(replaced)
    );
    assert_eq!(HxReplaceUrl::decode(&[]), Err(Error::Invalid));
    assert_eq!(HxReplaceUrl::decode(&[value(b"\x80")]), Err(Error::Invalid));
}

#[test]
fn uri_headers_read_as_uris() {
    assert_eq!(HxRedirect::from(uri("/a")).as_str(), "/a");
    assert_eq!(url_of("/b?c").as_str(), "/b?c");
}
