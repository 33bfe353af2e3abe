use htmx_headers::header::Error;
use htmx_headers::header::HeaderValue;
use htmx_headers::response::options::Event;
use htmx_headers::response::options::Events;
use htmx_headers::response::HxTrigger;
use htmx_headers::response::HxTriggerAfterSettle;
use htmx_headers::response::HxTriggerAfterSwap;
use htmx_headers::util::json::bytes_less;
use htmx_headers::util::json::frame_object;
use htmx_headers::util::json::put_member;
use htmx_headers::util::json::read_shape;
use htmx_headers::util::json::Json;
use htmx_headers::util::json::JsonMember;
use htmx_headers::util::json::JsonShape;

fn json(text: &str) -> Json {
    Json::parse(text.as_bytes()).unwrap()
}

fn member(key: &str, value: &str) -> JsonMember {
    JsonMember { key: key.to_string(), value: json(value) }
}

fn events(list: Vec<Event>) -> Events {
    let mut events = Events::new();
    for event in list {
        events.push(event);
    }
    events
}

fn wire(events: &Events) -> String {
    String::from_utf8(events.to_header_value().unwrap().as_bytes().to_vec()).unwrap()
}

#[test]
fn no_event_gives_the_empty_value() {
    assert_eq!(wire(&Events::new()), "");
    assert_eq!(wire(&Events::with_capacity(4)), "");
    assert!(Events::new().is_empty());
    assert!(!Events::new().has_data());
}

#[test]
fn events_without_data_are_joined_by_commas() {
    let list = events(vec![Event::new("foo"), Event::new("bar")]);
    assert_eq!(wire(&list), "foo,bar");
    assert_eq!(list.len(), 2);
    assert!(!list.has_data());
    assert_eq!(list.get(1).unwrap().name(), "bar");
    assert_eq!(list.get(1).unwrap().data(), None);
    assert!(list.get(2).is_none());
    assert_eq!(wire(&events(vec![Event::new("only")])), "only");
    assert_eq!(
        wire(&events(vec![Event::new("b"), Event::new("a"), Event::new("b")])),
        "b,a,b"
    );
}

#[test]
fn events_with_data_form_one_object() {
    let list = events(vec![
        Event::new_with_data("foo", json("null")),
        Event::new_with_data("bar", json("{\"x\":1}")),
    ]);
    assert!(list.has_data());
    assert_eq!(wire(&list), "{\"bar\":{\"x\":1},\"foo\":null}");
}

#[test]
fn an_event_without_data_is_null_in_the_object() {
    let list = events(vec![
        Event::new("foo"),
        Event::new_with_data("bar", json("{\"x\":1}")),
    ]);
    assert_eq!(wire(&list), "{\"bar\":{\"x\":1},\"foo\":null}");
}

#[test]
fn object_keys_are_sorted_and_the_last_event_of_a_name_wins() {
    let list = events(vec![
        Event::new_with_data("b", json("1")),
        Event::new("c"),
        Event::new_with_data("a", json("[true,false]")),
        Event::new_with_data("b", json("\"late\"")),
        Event::new_with_data("ab", json("2")),
        Event::new("B"),
    ]);
    assert_eq!(
        wire(&list),
        "{\"B\":null,\"a\":[true,false],\"ab\":2,\"b\":\"late\",\"c\":null}"
    );
}

#[test]
fn object_keys_are_written_as_json_strings() {
    let list = events(vec![Event::new_with_data("say \"hi\"", json("1"))]);
    assert_eq!(wire(&list), "{\"say \\\"hi\\\"\":1}");
    let line = events(vec![Event::new_with_data("a\nb", json("1"))]);
    assert_eq!(wire(&line), "{\"a\\nb\":1}");
}

#[test]
fn events_that_are_no_header_value_have_none() {
    assert!(events(vec![Event::new("a\nb")]).to_header_value().is_none());
    assert!(events(vec![Event::new("a"), Event::new("\u{7f}")])
        .to_header_value()
        .is_none());
    assert!(events(vec![Event::new_with_data("a\u{7f}", json("1"))])
        .to_header_value()
        .is_none());
}

#[test]
fn event_accessors() {
    let event = Event::new_with_data("saved", json(" { \"id\" : 7 } "));
    assert_eq!(event.name(), "saved");
    assert_eq!(event.data().unwrap().as_str(), "{\"id\":7}");
    assert_eq!(Event::new("x").data(), None);
    assert_eq!(Event::new("x"), Event::new("x"));
}

#[test]
fn json_documents_are_held_as_written_by_serde() {
    assert_eq!(json(" [ 1 , 2 ] ").as_str(), "[1,2]");
    assert_eq!(json("{\"b\":1,\"a\":{\"d\":null,\"c\":\"x\"}}").as_str(), "{\"a\":{\"c\":\"x\",\"d\":null},\"b\":1}");
    assert_eq!(Json::null().as_str(), "null");
    assert_eq!(Json::string("a\"b").as_str(), "\"a\\\"b\"");
    assert_eq!(Json::string("plain").as_str(), "\"plain\"");
    assert_eq!(Json::string("").as_str(), "\"\"");
    assert_eq!(Json::string("a\tb\u{1}\u{e9}").as_str(), "\"a\\tb\\u0001\u{e9}\"");
    assert_eq!(Json::parse(b""), Err(Error::Invalid));
    assert_eq!(Json::parse(b"{"), Err(Error::Invalid));
    assert_eq!(Json::parse(b"/path"), Err(Error::Invalid));
    assert_eq!(Json::parse(b"1 2"), Err(Error::Invalid));
    assert_eq!(json("1").clone(), json("1"));
}

#[test]
fn json_shapes() {
    assert_eq!(read_shape(b"nope"), JsonShape::Invalid);
    assert_eq!(read_shape(b"null"), JsonShape::Null);
    assert_eq!(read_shape(b"\"a\\u0062c\""), JsonShape::Text("abc".to_string()));
    assert_eq!(read_shape(b"12"), JsonShape::Other);
    assert_eq!(read_shape(b"true"), JsonShape::Other);
    assert_eq!(read_shape(b"1.5"), JsonShape::Other);
    assert_eq!(
        read_shape(b"[\"a\", 1, [ 2 ]]"),
        JsonShape::Array(vec![json("\"a\""), json("1"), json("[2]")])
    );
    assert_eq!(read_shape(b"[]"), JsonShape::Array(Vec::new()));
    assert_eq!(
        read_shape(b"{\"k\": [1, 2], \"a\": \"t\"}"),
        JsonShape::Object(vec![member("a", "\"t\""), member("k", "[1,2]")])
    );
    assert_eq!(read_shape(b"{}"), JsonShape::Object(Vec::new()));
    assert_eq!(json("\"x\"").shape(), JsonShape::Text("x".to_string()));
}

#[test]
fn keys_are_ordered_byte_by_byte() {
    assert!(bytes_less(b"a", b"b"));
    assert!(bytes_less(b"a", b"ab"));
    assert!(bytes_less(b"", b"a"));
    assert!(bytes_less(b"B", b"a"));
    assert!(bytes_less(b"ab", b"b"));
    assert!(!bytes_less(b"a", b"a"));
    assert!(!bytes_less(b"b", b"a"));
    assert!(!bytes_less(b"ab", b"a"));
    assert!(!bytes_less(b"", b""));
    assert!(bytes_less("z".as_bytes(), "\u{e9}".as_bytes()));
}

#[test]
fn members_are_put_in_the_order_of_their_keys() {
    let mut members = Vec::new();
    put_member(&mut members, member("m", "1"));
    put_member(&mut members, member("z", "2"));
    put_member(&mut members, member("a", "3"));
    put_member(&mut members, member("m", "4"));
    put_member(&mut members, member("n", "5"));
    assert_eq!(
        members,
        vec![
            member("a", "3"),
            member("m", "4"),
            member("n", "5"),
            member("z", "2")
        ]
    );
}

#[test]
fn objects_are_framed_without_spaces() {
    assert_eq!(frame_object(&[]), b"{}".to_vec());
    assert_eq!(frame_object(&[member("k", "null")]), b"{\"k\":null}".to_vec());
    assert_eq!(
        frame_object(&[member("b", "1"), member("a", "\"x\"")]),
        b"{\"b\":1,\"a\":\"x\"}".to_vec()
    );
}

#[test]
fn trigger_headers_encode_their_events() {
    assert_eq!(HxTrigger::name(), "hx-trigger");
    assert_eq!(HxTriggerAfterSettle::name(), "hx-trigger-after-settle");
    assert_eq!(HxTriggerAfterSwap::name(), "hx-trigger-after-swap");
    assert_eq!(HxTrigger::event("saved").encode().unwrap().as_bytes(), b"saved");
    assert_eq!(
        HxTriggerAfterSettle::events(&["a", "b", "c"]).encode().unwrap().as_bytes(),
        b"a,b,c"
    );
    assert_eq!(
        HxTriggerAfterSwap::event_with_data("saved", json("{\"id\":7}"))
            .encode()
            .unwrap()
            .as_bytes(),
        b"{\"saved\":{\"id\":7}}"
    );
    assert_eq!(HxTrigger::events(&[]).encode().unwrap().as_bytes(), b"");
    assert_eq!(HxTrigger::from(Events::new()).encode().unwrap().as_bytes(), b"");
    assert_eq!(
        HxTriggerAfterSettle::event_with_data("e", json("null")).encode().unwrap().as_bytes(),
        b"{\"e\":null}"
    );
    assert_eq!(
        HxTriggerAfterSwap::events(&["x", "y"]).encode().unwrap().as_bytes(),
        b"x,y"
    );
    assert_eq!(HxTrigger::event("a\rb").encode(), Err(Error::Invalid));
}

#[test]
fn trigger_headers_are_response_headers() {
    let value = HeaderValue::from_bytes(b"saved").unwrap();
    assert_eq!(HxTrigger::decode(&[value.clone()]), Err(Error::WrongDirection));
    assert_eq!(
        HxTriggerAfterSettle::decode(&[value.clone()]),
        Err(Error::WrongDirection)
    );
    assert_eq!(HxTriggerAfterSwap::decode(&[value]), Err(Error::WrongDirection));
    assert_eq!(HxTrigger::decode(&[]), Err(Error::WrongDirection));
}

#[test]
fn trigger_headers_read_as_events() {
    let header = HxTrigger::events(&["a", "b"]);
    assert_eq!(header.len(), 2);
    assert!(!header.has_data());
    let names: Vec<&str> = header.iter().map(|event| event.name()).collect();
    assert_eq!(names, vec!["a", "b"]);
    assert_eq!(HxTriggerAfterSettle::event("x").get(0).unwrap().name(), "x");
    assert!(HxTriggerAfterSwap::event_with_data("x", json("1")).has_data());
    assert_eq!(Events::default(), Events::new());
}
