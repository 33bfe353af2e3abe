use htmx_headers::header::bytes_eq;
use htmx_headers::header::is_legal_name;
use htmx_headers::header::Error;
use htmx_headers::header::HeaderValue;
use htmx_headers::request::HxPrompt;
use htmx_headers::request::HxSource;
use htmx_headers::request::HxTarget;
use htmx_headers::request::HxTrigger;
use htmx_headers::request::HxTriggerName;
use htmx_headers::response::HxReselect;
use htmx_headers::response::HxRetarget;
use htmx_headers::util::value_string::find_hash;
use htmx_headers::util::value_string::HeaderValueString;

fn value(bytes: &[u8]) -> HeaderValue {
    HeaderValue::from_bytes(bytes).unwrap()
}

#[test]
fn header_value_takes_legal_bytes_only() {
    assert!(HeaderValue::from_bytes(b"").is_some());
    assert!(HeaderValue::from_bytes(b"hello world").is_some());
    assert!(HeaderValue::from_bytes(b"tab\there").is_some());
    assert!(HeaderValue::from_bytes(b"hello\xfa").is_some());
    assert!(HeaderValue::from_bytes(b"\n").is_none());
    assert!(HeaderValue::from_bytes(b"a\rb").is_none());
    assert!(HeaderValue::from_bytes(b"a\x00").is_none());
    assert!(HeaderValue::from_bytes(b"a\x1f").is_none());
    assert!(HeaderValue::from_bytes(b"a\x7f").is_none());
    assert!(HeaderValue::from_str("gr\u{fc}n").is_some());
    assert!(HeaderValue::from_str("line\nbreak").is_none());
}

#[test]
fn header_value_keeps_its_bytes() {
    let v = value(b"hello\xfa");
    assert_eq!(v.as_bytes(), b"hello\xfa");
    assert_eq!(v.len(), 6);
    assert!(!v.is_empty());
    assert!(value(b"").is_empty());
    assert_eq!(v.clone(), v);
    assert_eq!(HeaderValue::from_static("abc").as_bytes(), b"abc");
    assert!(value(b"true").is("true"));
    assert!(!value(b"true").is("tru"));
    assert!(!value(b"tru").is("true"));
    assert!(bytes_eq(b"ab", b"ab"));
    assert!(!bytes_eq(b"ab", b"ac"));
    assert!(!bytes_eq(b"ab", b"abc"));
}

#[test]
fn header_value_is_text_when_utf8() {
    assert_eq!(value(b"hello").to_text(), Some("hello".to_string()));
    assert_eq!(value(b"a\tb ~").to_text(), Some("a\tb ~".to_string()));
    assert_eq!(value(b"").to_text(), Some(String::new()));
    assert_eq!(value("gr\u{fc}n".as_bytes()).to_text(), Some("gr\u{fc}n".to_string()));
    assert_eq!(value("\u{65e5}\u{672c} \u{1f600}".as_bytes()).to_text(), Some("\u{65e5}\u{672c} \u{1f600}".to_string()));
    assert_eq!(value(b"hello\xfa").to_text(), None);
    assert_eq!(value(b"\xc3").to_text(), None);
    assert_eq!(value(b"\xc0\xaf").to_text(), None);
    assert_eq!(value(b"\xed\xa0\x80").to_text(), None);
    assert_eq!(value(b"\xf4\x90\x80\x80").to_text(), None);
    assert_eq!(value(b"a\x80").to_text(), None);
}

#[test]
fn header_names() {
    assert!(is_legal_name(b"x-custom"));
    assert!(is_legal_name(b"HX-Target"));
    assert!(is_legal_name(b"a!#$%&'*+-.^_`|~9"));
    assert!(!is_legal_name(b""));
    assert!(!is_legal_name(b"bad name"));
    assert!(!is_legal_name(b"a:b"));
    assert!(!is_legal_name(b"a(b)"));
    assert!(!is_legal_name(b"a\"b"));
    assert!(!is_legal_name(b"a,b"));
    assert!(!is_legal_name(b"a/b"));
    assert!(!is_legal_name(b"a;b"));
    assert!(!is_legal_name(b"a=b"));
    assert!(!is_legal_name(b"a@b"));
    assert!(!is_legal_name(b"a[b]"));
    assert!(!is_legal_name(b"a{b}"));
    assert!(!is_legal_name(b"a\x7f"));
    assert!(!is_legal_name("caf\u{e9}".as_bytes()));
    assert!(is_legal_name(&[b'a'; 65535]));
    assert!(!is_legal_name(&[b'a'; 65536]));
}

#[test]
fn value_string_from_the_wire() {
    let text = HeaderValueString::try_from_header_value(&value(b"#main")).unwrap();
    assert_eq!(text.as_str(), "#main");
    assert_eq!(text.as_header_value().as_bytes(), b"#main");
    let wide = HeaderValueString::try_from_header_value(&value(b"caf\xc3\xa9")).unwrap();
    assert_eq!(wide.as_str(), "caf\u{e9}");
    assert_eq!(wide.as_header_value().as_bytes(), b"caf\xc3\xa9");
    assert_eq!(
        HeaderValueString::try_from_header_value(&value(b"caf\xe9")),
        Err(Error::Invalid)
    );
    assert_eq!(
        HeaderValueString::try_from_header_value(&value(b"caf\xc3")),
        Err(Error::Invalid)
    );
}

#[test]
fn value_string_from_a_string() {
    let text = HeaderValueString::from_string("caf\u{e9}".to_string()).unwrap();
    assert_eq!(text.as_str(), "caf\u{e9}");
    assert_eq!(text.as_header_value().as_bytes(), "caf\u{e9}".as_bytes());
    assert!(HeaderValueString::from_string("a\nb".to_string()).is_none());
    assert!(HeaderValueString::from_string("a\u{7f}".to_string()).is_none());
    let fixed = HeaderValueString::from_static("#body");
    assert_eq!(fixed.as_str(), "#body");
    assert!(fixed.same_as(&HeaderValueString::from_string("#body".to_string()).unwrap()));
    assert!(!fixed.same_as(&text));
    assert_eq!(fixed.clone(), fixed);
}

#[test]
fn compound_identifier_with_id() {
    let target = HxTarget::decode(&[value(b"div#results")]).unwrap();
    assert_eq!(target.tag(), "div");
    assert_eq!(target.id(), Some("results"));
    assert_eq!(target.as_str(), "div#results");
}

#[test]
fn compound_identifier_without_id() {
    let target = HxTarget::decode(&[value(b"div")]).unwrap();
    assert_eq!(target.tag(), "div");
    assert_eq!(target.id(), None);
}

#[test]
fn compound_identifier_splits_at_the_first_hash() {
    let target = HxTarget::decode(&[value(b"div#a#b")]).unwrap();
    assert_eq!(target.tag(), "div");
    assert_eq!(target.id(), Some("a#b"));
}

#[test]
fn compound_identifier_of_a_wide_text() {
    let target = HxTarget::decode(&[value("b\u{fc}hne#gr\u{fc}n#x".as_bytes())]).unwrap();
    assert_eq!(target.tag(), "b\u{fc}hne");
    assert_eq!(target.id(), Some("gr\u{fc}n#x"));
    let source = HxSource::decode(&[value("\u{65e5}\u{672c}".as_bytes())]).unwrap();
    assert_eq!(source.tag(), "\u{65e5}\u{672c}");
    assert_eq!(source.id(), None);
}

#[test]
fn compound_identifier_edges() {
    let only_id = HxSource::decode(&[value(b"#submit")]).unwrap();
    assert_eq!(only_id.tag(), "");
    assert_eq!(only_id.id(), Some("submit"));
    let empty_id = HxSource::decode(&[value(b"button#")]).unwrap();
    assert_eq!(empty_id.tag(), "button");
    assert_eq!(empty_id.id(), Some(""));
    let empty = HxSource::decode(&[value(b"")]).unwrap();
    assert_eq!(empty.tag(), "");
    assert_eq!(empty.id(), None);
    let wide = HeaderValueString::from_string("\u{e9}l\u{e9}ment#\u{fc}ber#x".to_string()).unwrap();
    assert_eq!(wide.tag(), "\u{e9}l\u{e9}ment");
    assert_eq!(wide.id(), Some("\u{fc}ber#x"));
    assert_eq!(find_hash(b"ab#c"), 2);
    assert_eq!(find_hash(b"abc"), 3);
}

#[test]
fn source_and_target_are_request_headers() {
    assert_eq!(HxSource::name(), "hx-source");
    assert_eq!(HxTarget::name(), "hx-target");
    let source = HxSource::decode(&[value(b"button#go")]).unwrap();
    assert_eq!(source.encode(), Err(Error::WrongDirection));
    let target = HxTarget::decode(&[value(b"main")]).unwrap();
    assert_eq!(target.encode(), Err(Error::WrongDirection));
    assert_eq!(HxTarget::decode(&[]), Err(Error::Invalid));
    assert_eq!(
        HxTarget::decode(&[value(b"a"), value(b"b")]),
        Err(Error::Invalid)
    );
    assert_eq!(HxSource::decode(&[value(b"b\xfctton")]), Err(Error::Invalid));
}

#[test]
fn prompt_and_trigger_name() {
    assert_eq!(HxPrompt::name(), "hx-prompt");
    assert_eq!(HxTriggerName::name(), "hx-trigger-name");
    let prompt = HxPrompt::decode(&[value(b"yes, please")]).unwrap();
    assert_eq!(prompt.as_str(), "yes, please");
    assert_eq!(prompt.encode(), Err(Error::WrongDirection));
    let wide = HxPrompt::decode(&[value("gr\u{fc}\u{df}e".as_bytes())]).unwrap();
    assert_eq!(wide.as_str(), "gr\u{fc}\u{df}e");
    assert_eq!(HxPrompt::decode(&[]), Err(Error::Invalid));
    assert_eq!(
        HxPrompt::decode(&[value(b"a"), value(b"b")]),
        Err(Error::Invalid)
    );
    assert_eq!(HxPrompt::decode(&[value(b"\xe4")]), Err(Error::Invalid));
    assert_eq!(HxPrompt::from_static("ok").as_str(), "ok");
    let name = HxTriggerName::decode(&[value(b"email")]).unwrap();
    assert_eq!(name.as_str(), "email");
    assert_eq!(name.encode(), Err(Error::WrongDirection));
    assert_eq!(HxTriggerName::from_static("q").as_str(), "q");
}

#[test]
fn reselect_and_retarget() {
    assert_eq!(HxReselect::name(), "hx-reselect");
    assert_eq!(HxRetarget::name(), "hx-retarget");
    let reselect = HxReselect::from_static("#content");
    assert_eq!(reselect.as_str(), "#content");
    assert_eq!(reselect.encode().unwrap().as_bytes(), b"#content");
    let retarget = HxRetarget::from_string("#body".to_string()).unwrap();
    assert_eq!(retarget.as_str(), "#body");
    assert_eq!(retarget.encode().unwrap().as_bytes(), b"#body");
    assert!(HxRetarget::from_string("a\nb".to_string()).is_none());
    assert!(HxReselect::from_string("\u{0}".to_string()).is_none());
    assert_eq!(
        HxReselect::decode(&[value(b".row > td")]).unwrap().as_str(),
        ".row > td"
    );
    assert_eq!(
        HxRetarget::decode(&[value("#caf\u{e9}".as_bytes())]).unwrap().as_str(),
        "#caf\u{e9}"
    );
    assert_eq!(
        HxRetarget::decode(&[value(b"#a")]).unwrap(),
        HxRetarget::from_static("#a")
    );
    assert_eq!(HxReselect::decode(&[]), Err(Error::Invalid));
    assert_eq!(HxRetarget::decode(&[value(b"\xff")]), Err(Error::Invalid));
}

#[test]
fn trigger_id_is_a_text() {
    assert_eq!(HxTrigger::name(), "hx-trigger");
    let trigger = HxTrigger::decode(&[value(b"save-button")]).unwrap();
    assert_eq!(trigger.as_str(), "save-button");
    assert_eq!(trigger.encode(), Err(Error::WrongDirection));
    assert_eq!(HxTrigger::decode(&[]), Err(Error::Invalid));
    assert_eq!(HxTrigger::decode(&[value(b"\xc3\xa9")]).unwrap().as_str(), "\u{e9}");
    assert_eq!(HxTrigger::decode(&[value(b"\xa9")]), Err(Error::Invalid));
    assert_eq!(
        HxTrigger::decode(&[value(b"a"), value(b"b")]),
        Err(Error::Invalid)
    );
}

#[test]
fn text_headers_read_as_texts() {
    let prompt = HxPrompt::from_static("hello");
    assert!(prompt.starts_with("he"));
    assert_eq!(&*prompt, "hello");
    assert_eq!(HxReselect::from_static("#a").len(), 2);
    assert_eq!(&*HxRetarget::from_static("#b"), "#b");
    assert_eq!(&*HxTriggerName::from_static("n"), "n");
    assert_eq!(&*HxTrigger::from_static("id"), "id");
}
