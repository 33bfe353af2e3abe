//! The header usage ledger: which of the tracked request headers were read
//! while one request was handled, and the `Vary` lines that follow from it.

pub mod catalogue;
pub mod exchange;
pub mod ledger;

pub use self::catalogue::in_catalogue_order;
pub use self::catalogue::Catalogue;
pub use self::catalogue::HxRequestHeader;
pub use self::catalogue::NUM_HX_REQUEST_HEADERS;
pub use self::exchange::after_report;
pub use self::exchange::after_signal;
pub use self::exchange::Action;
pub use self::exchange::Exchange;
pub use self::exchange::Signal;
pub use self::exchange::Stage;
pub use self::exchange::Store;
pub use self::ledger::lemma_isolation;
pub use self::ledger::lemma_order_exact;
pub use self::ledger::lemma_repeated_report;
pub use self::ledger::lemma_report_idempotent;
pub use self::ledger::recorded;
pub use self::ledger::Ledger;

use crate::auto_vary::exchange::is_open;
use crate::auto_vary::exchange::Held;
use crate::header::HeaderValue;
use vstd::prelude::*;
use vstd::string::StringExecFns;
use vstd::utf8::encode_utf8;

verus! {

/// One line of a response's headers.
#[derive(Debug, Clone, PartialEq, Eq, Hash)]
pub struct HeaderLine {
    pub name: String,
    pub value: HeaderValue,
}

impl View for HeaderLine {
    type V = (Seq<char>, Seq<u8>);

    open spec fn view(&self) -> (Seq<char>, Seq<u8>) {
        (self.name@, self.value@)
    }
}

/// The lines of a response as plain values.
pub open spec fn line_views(lines: Seq<HeaderLine>) -> Seq<(Seq<char>, Seq<u8>)> {
    lines.map_values(|l: HeaderLine| l@)
}

/// The `Vary` lines that a set of used headers adds to a response.
pub open spec fn vary_lines(used: Set<HxRequestHeader>) -> Seq<(Seq<char>, Seq<u8>)> {
    in_catalogue_order(used).map_values(
        |h: HxRequestHeader| ("vary"@, encode_utf8(h.vary_name())),
    )
}

/// Adds to `response` one `Vary` line for each header of `ledger`, after the
/// lines that are there. Where no header was read, `response` stays as it is.
pub fn finalize_and_apply(ledger: &Ledger, response: &mut Vec<HeaderLine>)
    ensures
        line_views(final(response)@) == line_views(old(response)@) + vary_lines(ledger@),
        ledger@ == Set::<HxRequestHeader>::empty() ==> line_views(final(response)@) == line_views(
            old(response)@,
        ),
{
    let used = ledger.headers();
    let mut i: usize = 0;
    let ghost order = in_catalogue_order(ledger@);
    assert(line_views(response@) =~= line_views(old(response)@) + vary_lines(ledger@).take(0));
    while i < used.len()
        invariant
            i <= used.len(),
            used@ == order,
            order == in_catalogue_order(ledger@),
            line_views(response@) == line_views(old(response)@) + vary_lines(ledger@).take(
                i as int,
            ),
        decreases used.len() - i,
    {
        let ghost before = response@;
        let line = HeaderLine { name: String::from_str("vary"), value: used[i].vary_value() };
        response.push(line);
        proof {
            assert(line@ == vary_lines(ledger@)[i as int]);
            assert(line_views(response@) =~= line_views(before).push(line@));
            assert(vary_lines(ledger@).take(i + 1) =~= vary_lines(ledger@).take(i as int).push(
                line@,
            ));
            assert(line_views(response@) =~= line_views(old(response)@) + vary_lines(
                ledger@,
            ).take(i + 1));
        }
        i += 1;
    }
    proof {
        assert(vary_lines(ledger@).take(used.len() as int) =~= vary_lines(ledger@));
        if ledger@ == Set::<HxRequestHeader>::empty() {
            lemma_order_exact(ledger@);
            if order.len() > 0 {
                assert(order.contains(order[0]));
            }
            assert(vary_lines(ledger@) =~= Seq::<(Seq<char>, Seq<u8>)>::empty());
            assert(line_views(response@) =~= line_views(old(response)@));
        }
    }
}

/// Wraps a service into `AutoVary`.
#[derive(Debug, Clone)]
pub struct AutoVaryLayer;

/// A service around `inner` that adds to each response the `Vary` lines of
/// the headers that were read for it.
#[derive(Debug, Clone)]
pub struct AutoVary<S> {
    pub inner: S,
    pub watched: Catalogue,
}

impl AutoVaryLayer {
    /// Wraps `inner`. The service tracks every header of the catalogue.
    pub fn layer<S>(&self, inner: S) -> (service: AutoVary<S>)
        ensures
            service.inner == inner,
            service.watched@ == Set::<HxRequestHeader>::full(),
    {
        AutoVary { inner, watched: Catalogue::all() }
    }
}

impl<S> AutoVary<S> {
    /// The service with `watched` as the headers that it tracks.
    pub fn watching(self, watched: Catalogue) -> (service: AutoVary<S>)
        ensures
            service.inner == self.inner,
            service.watched@ == watched@,
    {
        AutoVary { inner: self.inner, watched }
    }

    /// The store for a request that comes in: a fresh, empty ledger for the
    /// tracked headers is in it.
    pub fn on_request(&self) -> (store: Store)
        ensures
            store@ == Some(
                Held {
                    stage: Stage::Created,
                    used: Set::<HxRequestHeader>::empty(),
                    watched: self.watched@,
                },
            ),
    {
        let mut store = Store::new();
        let _ = store.attach_watching(self.watched.clone());
        store
    }

    /// Writes the `Vary` lines of `store` to `response`, after the lines that
    /// are there, if the ledger has not been read before; the exchange is
    /// then at its end.
    pub fn on_response(&self, store: &mut Store, response: &mut Vec<HeaderLine>)
        ensures
            line_views(final(response)@) == line_views(old(response)@) + (match old(store)@ {
                Some(held) if is_open(held.stage) => vary_lines(held.used),
                _ => Seq::<(Seq<char>, Seq<u8>)>::empty(),
            }),
            final(store)@ == (match old(store)@ {
                Some(held) => Some(
                    Held {
                        stage: if is_open(held.stage) {
                            Stage::Applied
                        } else {
                            held.stage
                        },
                        ..held
                    },
                ),
                None => None,
            }),
    {
        let open = match store.stage() {
            Some(Stage::Created) => true,
            Some(Stage::Accumulating) => true,
            _ => false,
        };
        if open {
            match store.ledger() {
                Some(ledger) => finalize_and_apply(ledger, response),
                None => {},
            }
            let _ = store.signal(Signal::ResponseReady);
            let _ = store.signal(Signal::Appended);
        } else {
            assert(line_views(response@) =~= line_views(old(response)@) + Seq::<
                (Seq<char>, Seq<u8>),
            >::empty());
        }
    }
}

} // verus!
