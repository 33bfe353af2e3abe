use htmx_headers::auto_vary::finalize_and_apply;
use htmx_headers::auto_vary::Action;
use htmx_headers::auto_vary::AutoVaryLayer;
use htmx_headers::auto_vary::Catalogue;
use htmx_headers::auto_vary::Exchange;
use htmx_headers::auto_vary::HeaderLine;
use htmx_headers::auto_vary::HxRequestHeader;
use htmx_headers::auto_vary::Ledger;
use htmx_headers::auto_vary::Signal;
use htmx_headers::auto_vary::Stage;
use htmx_headers::auto_vary::Store;
use htmx_headers::auto_vary::NUM_HX_REQUEST_HEADERS;
use htmx_headers::header::HeaderValue;
use htmx_headers::request::HxCurrentUrl;
use htmx_headers::request::HxTarget;

fn value(text: &str) -> HeaderValue {
    HeaderValue::from_bytes(text.as_bytes()).unwrap()
}

fn line(name: &str, text: &str) -> HeaderLine {
    HeaderLine { name: name.to_string(), value: value(text) }
}

fn texts(lines: &[HeaderLine]) -> Vec<(String, Vec<u8>)> {
    lines.iter().map(|l| (l.name.clone(), l.value.as_bytes().to_vec())).collect()
}

#[test]
fn catalogue_names() {
    assert_eq!(HxRequestHeader::Boosted.as_str(), "HX-Boosted");
    assert_eq!(HxRequestHeader::CurrentUrl.as_str(), "HX-Current-URL");
    assert_eq!(
        HxRequestHeader::HistoryRestoreRequest.as_str(),
        "HX-History-Restore-Request"
    );
    assert_eq!(HxRequestHeader::Prompt.as_str(), "HX-Prompt");
    assert_eq!(HxRequestHeader::Request.as_str(), "HX-Request");
    assert_eq!(HxRequestHeader::RequestType.as_str(), "HX-Request-Type");
    assert_eq!(HxRequestHeader::Source.as_str(), "HX-Source");
    assert_eq!(HxRequestHeader::Target.as_str(), "HX-Target");
    assert_eq!(HxRequestHeader::TriggerName.as_str(), "HX-Trigger-Name");
    assert_eq!(HxRequestHeader::Trigger.as_str(), "HX-Trigger");
}

#[test]
fn catalogue_places() {
    assert_eq!(NUM_HX_REQUEST_HEADERS, 10);
    for i in 0..NUM_HX_REQUEST_HEADERS {
        assert_eq!(HxRequestHeader::at(i).unwrap().index() as usize, i);
    }
    assert_eq!(HxRequestHeader::at(0), Some(HxRequestHeader::Boosted));
    assert_eq!(HxRequestHeader::at(9), Some(HxRequestHeader::Trigger));
    assert_eq!(HxRequestHeader::at(10), None);
    assert_eq!(HxRequestHeader::Target.header_name(), "hx-target");
    assert_eq!(HxRequestHeader::CurrentUrl.header_name(), "hx-current-url");
    for i in 0..NUM_HX_REQUEST_HEADERS {
        let header = HxRequestHeader::at(i).unwrap();
        assert_eq!(header.as_str().to_lowercase(), header.header_name());
    }
    assert_eq!(HxRequestHeader::Target.vary_value().as_bytes(), b"HX-Target");
}

#[test]
fn ledger_starts_empty() {
    let ledger = Ledger::new();
    assert!(ledger.is_empty());
    assert!(ledger.headers().is_empty());
    assert!(ledger.vary_entries().is_empty());
    assert!(!ledger.contains(HxRequestHeader::Target));
}

#[test]
fn ledger_lists_each_header_once() {
    let mut ledger = Ledger::new();
    ledger.report(HxRequestHeader::Target);
    ledger.report(HxRequestHeader::CurrentUrl);
    ledger.report(HxRequestHeader::Target);
    assert!(!ledger.is_empty());
    assert!(ledger.contains(HxRequestHeader::Target));
    assert!(ledger.contains(HxRequestHeader::CurrentUrl));
    assert!(!ledger.contains(HxRequestHeader::Request));
    assert_eq!(
        ledger.headers(),
        vec![HxRequestHeader::CurrentUrl, HxRequestHeader::Target]
    );
}

#[test]
fn ledger_report_is_idempotent() {
    for n in 1..20 {
        let mut ledger = Ledger::new();
        for _ in 0..n {
            ledger.report(HxRequestHeader::Prompt);
        }
        assert_eq!(ledger.headers(), vec![HxRequestHeader::Prompt]);
        let entries = ledger.vary_entries();
        assert_eq!(entries.len(), 1);
        assert_eq!(entries[0].as_bytes(), b"HX-Prompt");
    }
}

#[test]
fn ledger_report_all_takes_a_run_of_reports() {
    let mut ledger = Ledger::new();
    ledger.report(HxRequestHeader::Request);
    ledger.report_all(&[
        HxRequestHeader::Trigger,
        HxRequestHeader::Boosted,
        HxRequestHeader::Trigger,
        HxRequestHeader::Request,
    ]);
    assert_eq!(
        ledger.headers(),
        vec![
            HxRequestHeader::Boosted,
            HxRequestHeader::Request,
            HxRequestHeader::Trigger
        ]
    );
}

#[test]
fn ledger_holds_the_whole_catalogue() {
    let mut ledger = Ledger::new();
    for i in (0..NUM_HX_REQUEST_HEADERS).rev() {
        ledger.report(HxRequestHeader::at(i).unwrap());
    }
    let all: Vec<HxRequestHeader> = (0..NUM_HX_REQUEST_HEADERS).filter_map(HxRequestHeader::at).collect();
    assert_eq!(ledger.headers(), all);
    assert_eq!(ledger.clone(), ledger);
}

#[test]
fn ledgers_do_not_leak_into_each_other() {
    let mut first = Ledger::new();
    let mut second = Ledger::new();
    first.report(HxRequestHeader::Target);
    second.report(HxRequestHeader::Request);
    first.report(HxRequestHeader::Source);
    second.report(HxRequestHeader::Boosted);
    assert_eq!(
        first.headers(),
        vec![HxRequestHeader::Source, HxRequestHeader::Target]
    );
    assert_eq!(
        second.headers(),
        vec![HxRequestHeader::Boosted, HxRequestHeader::Request]
    );
}

#[test]
fn no_tracked_header_leaves_the_response_alone() {
    let service = AutoVaryLayer.layer(());
    let mut store = service.on_request();
    let mut response = vec![line("content-type", "text/html")];
    service.on_response(&mut store, &mut response);
    assert_eq!(
        texts(&response),
        vec![("content-type".to_string(), b"text/html".to_vec())]
    );
    assert_eq!(store.stage(), Some(Stage::Applied));
}

#[test]
fn target_then_current_url_gives_two_vary_lines() {
    let service = AutoVaryLayer.layer(());
    let mut store = service.on_request();
    assert_eq!(store.stage(), Some(Stage::Created));
    let target = HxTarget::from_request_parts(&mut store, &[value("div#results")]);
    assert_eq!(target.unwrap().tag(), "div");
    let url = HxCurrentUrl::from_request_parts(&mut store, &[value("/search?q=1")]);
    assert_eq!(url.unwrap().as_uri().as_str(), "/search?q=1");
    let _ = HxTarget::from_request_parts(&mut store, &[value("div#results")]);
    let _ = HxCurrentUrl::from_request_parts(&mut store, &[]);
    assert_eq!(store.stage(), Some(Stage::Accumulating));
    let mut response = vec![line("vary", "accept-encoding")];
    service.on_response(&mut store, &mut response);
    assert_eq!(
        texts(&response),
        vec![
            ("vary".to_string(), b"accept-encoding".to_vec()),
            ("vary".to_string(), b"HX-Current-URL".to_vec()),
            ("vary".to_string(), b"HX-Target".to_vec()),
        ]
    );
}

#[test]
fn a_failed_decode_is_reported_too() {
    let mut store = Store::new();
    assert!(store.attach());
    let target = HxTarget::from_request_parts(&mut store, &[]);
    assert!(target.is_err());
    match store.signal(Signal::ResponseReady) {
        Action::Append(entries) => {
            assert_eq!(entries.len(), 1);
            assert_eq!(entries[0].as_bytes(), b"HX-Target");
        }
        Action::Nothing => panic!("the ledger was not read"),
    }
}

#[test]
fn a_response_is_finalized_once() {
    let service = AutoVaryLayer.layer(());
    let mut store = service.on_request();
    store.report(HxRequestHeader::Request);
    let mut response = Vec::new();
    service.on_response(&mut store, &mut response);
    service.on_response(&mut store, &mut response);
    assert_eq!(texts(&response), vec![("vary".to_string(), b"HX-Request".to_vec())]);
}

#[test]
fn finalize_appends_behind_what_is_there() {
    let mut ledger = Ledger::new();
    ledger.report(HxRequestHeader::TriggerName);
    ledger.report(HxRequestHeader::Boosted);
    let mut response = vec![line("vary", "origin"), line("x-frame-options", "DENY")];
    finalize_and_apply(&ledger, &mut response);
    assert_eq!(
        texts(&response),
        vec![
            ("vary".to_string(), b"origin".to_vec()),
            ("x-frame-options".to_string(), b"DENY".to_vec()),
            ("vary".to_string(), b"HX-Boosted".to_vec()),
            ("vary".to_string(), b"HX-Trigger-Name".to_vec()),
        ]
    );
    let mut untouched = vec![line("vary", "origin")];
    finalize_and_apply(&Ledger::new(), &mut untouched);
    assert_eq!(texts(&untouched), vec![("vary".to_string(), b"origin".to_vec())]);
}

#[test]
fn store_without_ledger_ignores_reports() {
    let mut store = Store::new();
    assert!(!store.is_attached());
    assert_eq!(store.stage(), None);
    store.report(HxRequestHeader::Target);
    assert_eq!(store.signal(Signal::ResponseReady), Action::Nothing);
    assert_eq!(store.stage(), None);
}

#[test]
fn store_takes_one_ledger() {
    let mut store = Store::new();
    assert!(store.attach());
    assert!(store.is_attached());
    store.report(HxRequestHeader::Source);
    assert!(!store.attach());
    match store.signal(Signal::ResponseReady) {
        Action::Append(entries) => assert_eq!(entries[0].as_bytes(), b"HX-Source"),
        Action::Nothing => panic!("the ledger was replaced"),
    }
}

#[test]
fn exchange_walks_through_its_stages() {
    let mut exchange = Exchange::begin();
    assert_eq!(exchange.stage(), Stage::Created);
    assert_eq!(exchange.step(Signal::Reported(HxRequestHeader::Target)), Action::Nothing);
    assert_eq!(exchange.stage(), Stage::Accumulating);
    assert_eq!(exchange.step(Signal::Appended), Action::Nothing);
    assert_eq!(exchange.stage(), Stage::Accumulating);
    let action = exchange.step(Signal::ResponseReady);
    assert_eq!(action, Action::Append(vec![value("HX-Target")]));
    assert_eq!(exchange.stage(), Stage::Finalizing);
    assert_eq!(exchange.step(Signal::Reported(HxRequestHeader::Source)), Action::Nothing);
    assert_eq!(exchange.stage(), Stage::Finalizing);
    assert_eq!(exchange.ledger().headers(), vec![HxRequestHeader::Target]);
    assert_eq!(exchange.step(Signal::ResponseReady), Action::Nothing);
    assert_eq!(exchange.step(Signal::Appended), Action::Nothing);
    assert_eq!(exchange.stage(), Stage::Applied);
    assert_eq!(exchange.step(Signal::Dropped), Action::Nothing);
    assert_eq!(exchange.stage(), Stage::Discarded);
    assert_eq!(exchange.step(Signal::ResponseReady), Action::Nothing);
    assert_eq!(exchange.stage(), Stage::Discarded);
}

#[test]
fn a_dropped_request_is_never_finalized() {
    let mut exchange = Exchange::begin();
    let _ = exchange.step(Signal::Reported(HxRequestHeader::Request));
    assert_eq!(exchange.step(Signal::Dropped), Action::Nothing);
    assert_eq!(exchange.step(Signal::ResponseReady), Action::Nothing);
    assert_eq!(exchange.stage(), Stage::Discarded);
}

#[test]
fn an_empty_ledger_appends_nothing() {
    let mut exchange = Exchange::begin();
    assert_eq!(exchange.step(Signal::ResponseReady), Action::Append(Vec::new()));
}

#[test]
fn catalogue_parts() {
    assert!(Catalogue::none().is_empty());
    assert!(Catalogue::none().headers().is_empty());
    assert!(!Catalogue::all().is_empty());
    assert_eq!(Catalogue::all().headers().len(), NUM_HX_REQUEST_HEADERS);
    for i in 0..NUM_HX_REQUEST_HEADERS {
        let header = HxRequestHeader::at(i).unwrap();
        assert!(Catalogue::all().contains(header));
        assert!(!Catalogue::none().contains(header));
        assert_eq!(Catalogue::all().headers()[i], header);
    }
    let part = Catalogue::none()
        .with(HxRequestHeader::Trigger)
        .with(HxRequestHeader::Request)
        .with(HxRequestHeader::Trigger);
    assert_eq!(
        part.headers(),
        vec![HxRequestHeader::Request, HxRequestHeader::Trigger]
    );
    assert_eq!(
        part.clone().without(HxRequestHeader::Request).headers(),
        vec![HxRequestHeader::Trigger]
    );
    assert_eq!(part.clone().without(HxRequestHeader::Target), part);
    assert_eq!(
        Catalogue::all().without(HxRequestHeader::Prompt).headers().len(),
        NUM_HX_REQUEST_HEADERS - 1
    );
    let mut grown = Catalogue::none();
    grown.insert(HxRequestHeader::Boosted);
    grown.insert(HxRequestHeader::Boosted);
    assert_eq!(grown.headers(), vec![HxRequestHeader::Boosted]);
}

#[test]
fn a_ledger_takes_in_what_it_watches() {
    let watched = Catalogue::none()
        .with(HxRequestHeader::Request)
        .with(HxRequestHeader::Target);
    let mut ledger = Ledger::watching(watched);
    ledger.report(HxRequestHeader::Prompt);
    assert!(ledger.is_empty());
    ledger.report(HxRequestHeader::Target);
    ledger.report_all(&[HxRequestHeader::Source, HxRequestHeader::Request]);
    assert_eq!(
        ledger.headers(),
        vec![HxRequestHeader::Request, HxRequestHeader::Target]
    );
    let mut nothing = Ledger::watching(Catalogue::none());
    nothing.report(HxRequestHeader::Request);
    assert!(nothing.is_empty());
}

#[test]
fn a_service_watches_the_headers_it_is_told_to() {
    let service = AutoVaryLayer
        .layer(())
        .watching(Catalogue::all().without(HxRequestHeader::Target));
    let mut store = service.on_request();
    let _ = HxTarget::from_request_parts(&mut store, &[value("div")]);
    let _ = HxCurrentUrl::from_request_parts(&mut store, &[value("/")]);
    let mut response = Vec::new();
    service.on_response(&mut store, &mut response);
    assert_eq!(
        texts(&response),
        vec![("vary".to_string(), b"HX-Current-URL".to_vec())]
    );
    let mut other = Store::new();
    assert!(other.attach_watching(Catalogue::none()));
    other.report(HxRequestHeader::Request);
    assert_eq!(other.stage(), Some(Stage::Accumulating));
    assert!(other.ledger().unwrap().is_empty());
    let exchange = Exchange::begin_watching(Catalogue::none().with(HxRequestHeader::Source));
    assert_eq!(exchange.stage(), Stage::Created);
}
