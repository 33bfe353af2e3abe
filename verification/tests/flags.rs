use htmx_headers::auto_vary::HxRequestHeader;
use htmx_headers::auto_vary::Store;
use htmx_headers::header::decode_flag;
use htmx_headers::header::just_one;
use htmx_headers::header::true_value;
use htmx_headers::header::Error;
use htmx_headers::header::HeaderValue;
use htmx_headers::request::HxBoosted;
use htmx_headers::request::HxHistoryRestoreRequest;
use htmx_headers::request::HxPreload;
use htmx_headers::request::HxRequest;
use htmx_headers::request::HxRequestType;
use htmx_headers::response::HxRefresh;

fn value(text: &str) -> HeaderValue {
    HeaderValue::from_bytes(text.as_bytes()).unwrap()
}

#[test]
fn flag_decodes_the_word_true_only() {
    assert!(decode_flag(&[value("true")]));
    assert!(!decode_flag(&[value("false")]));
    assert!(!decode_flag(&[value("True")]));
    assert!(!decode_flag(&[value("true ")]));
    assert!(!decode_flag(&[value("")]));
    assert!(!decode_flag(&[]));
    assert!(!decode_flag(&[value("true"), value("true")]));
}

#[test]
fn hx_request_decodes() {
    assert_eq!(HxRequest::name(), "hx-request");
    assert_eq!(HxRequest::decode(&[value("true")]), Ok(HxRequest));
    assert_eq!(HxRequest::decode(&[value("1")]), Err(Error::Invalid));
    assert_eq!(HxRequest::decode(&[]), Err(Error::Invalid));
    assert_eq!(
        HxRequest::decode(&[value("true"), value("true")]),
        Err(Error::Invalid)
    );
    assert_eq!(HxRequest.encode(), Err(Error::WrongDirection));
}

#[test]
fn hx_boosted_decodes() {
    assert_eq!(HxBoosted::name(), "hx-boosted");
    assert_eq!(HxBoosted::decode(&[value("true")]), Ok(HxBoosted));
    assert_eq!(HxBoosted::decode(&[value("false")]), Err(Error::Invalid));
    assert_eq!(HxBoosted::decode(&[]), Err(Error::Invalid));
    assert_eq!(
        HxBoosted::decode(&[value("true"), value("false")]),
        Err(Error::Invalid)
    );
    assert_eq!(HxBoosted.encode(), Err(Error::WrongDirection));
}

#[test]
fn hx_history_restore_request_decodes_and_encodes() {
    assert_eq!(
        HxHistoryRestoreRequest::name(),
        "hx-history-restore-request"
    );
    assert_eq!(
        HxHistoryRestoreRequest::decode(&[value("true")]),
        Ok(HxHistoryRestoreRequest)
    );
    assert_eq!(
        HxHistoryRestoreRequest::decode(&[value("yes")]),
        Err(Error::Invalid)
    );
    assert_eq!(HxHistoryRestoreRequest::decode(&[]), Err(Error::Invalid));
    assert_eq!(
        HxHistoryRestoreRequest::decode(&[value("true"), value("true")]),
        Err(Error::Invalid)
    );
    assert_eq!(HxHistoryRestoreRequest.encode(), Err(Error::WrongDirection));
}

#[test]
fn hx_preload_decodes_and_encodes() {
    assert_eq!(HxPreload::name(), "hx-preload");
    assert_eq!(HxPreload::decode(&[value("true")]), Ok(HxPreload));
    assert_eq!(HxPreload::decode(&[value("TRUE")]), Err(Error::Invalid));
    assert_eq!(HxPreload::decode(&[]), Err(Error::Invalid));
    assert_eq!(
        HxPreload::decode(&[value("true"), value("true")]),
        Err(Error::Invalid)
    );
    assert_eq!(HxPreload.encode(), Err(Error::WrongDirection));
}

#[test]
fn hx_refresh_decodes_and_encodes() {
    assert_eq!(HxRefresh::name(), "hx-refresh");
    assert_eq!(HxRefresh::decode(&[value("true")]), Ok(HxRefresh));
    assert_eq!(HxRefresh::decode(&[value("false")]), Err(Error::Invalid));
    assert_eq!(HxRefresh::decode(&[]), Err(Error::Invalid));
    assert_eq!(
        HxRefresh::decode(&[value("true"), value("true")]),
        Err(Error::Invalid)
    );
    assert_eq!(HxRefresh.encode().unwrap().as_bytes(), b"true");
    assert_eq!(true_value().as_bytes(), b"true");
}

#[test]
fn flags_report_to_the_ledger() {
    let mut store = Store::new();
    assert!(store.attach());
    assert_eq!(
        HxRequest::from_request_parts(&mut store, &[value("true")]),
        Ok(HxRequest)
    );
    assert_eq!(
        HxBoosted::from_request_parts(&mut store, &[]),
        Err(Error::Invalid)
    );
    assert_eq!(
        HxHistoryRestoreRequest::from_request_parts(&mut store, &[value("no")]),
        Err(Error::Invalid)
    );
    let mut expected = Store::new();
    expected.attach();
    expected.report(HxRequestHeader::HistoryRestoreRequest);
    expected.report(HxRequestHeader::Boosted);
    expected.report(HxRequestHeader::Request);
    assert_eq!(store, expected);
}

#[test]
fn request_type_decodes_its_two_words() {
    assert_eq!(HxRequestType::name(), "hx-request-type");
    assert_eq!(
        HxRequestType::decode(&[value("partial")]),
        Ok(HxRequestType::Partial)
    );
    assert_eq!(HxRequestType::decode(&[value("full")]), Ok(HxRequestType::Full));
    assert_eq!(HxRequestType::decode(&[value("Full")]), Err(Error::Invalid));
    assert_eq!(HxRequestType::decode(&[value("")]), Err(Error::Invalid));
    assert_eq!(HxRequestType::decode(&[]), Err(Error::Invalid));
    assert_eq!(
        HxRequestType::decode(&[value("full"), value("partial")]),
        Err(Error::Invalid)
    );
    assert_eq!(HxRequestType::Full.encode(), Err(Error::WrongDirection));
    let mut store = Store::new();
    store.attach();
    assert_eq!(
        HxRequestType::from_request_parts(&mut store, &[value("full")]),
        Ok(HxRequestType::Full)
    );
    let mut expected = Store::new();
    expected.attach();
    expected.report(HxRequestHeader::RequestType);
    assert_eq!(store, expected);
}

#[test]
fn just_one_wants_one_value() {
    assert_eq!(just_one(&[]), None);
    let one = [value("a")];
    assert_eq!(just_one(&one).unwrap().as_bytes(), b"a");
    assert_eq!(just_one(&[value("a"), value("b")]), None);
}

#[test]
fn error_messages() {
    assert_eq!(Error::invalid(), Error::Invalid);
    assert_eq!(Error::Invalid.message(), "invalid HTTP header");
    assert_eq!(
        Error::WrongDirection.message(),
        "header not used in this direction"
    );
}
