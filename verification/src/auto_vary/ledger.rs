//! The ledger: the set of tracked headers that were read for one request.

use crate::auto_vary::catalogue::catalogue;
use crate::auto_vary::catalogue::in_catalogue_order;
use crate::auto_vary::catalogue::Catalogue;
use crate::auto_vary::catalogue::HxRequestHeader;
use crate::header::HeaderValue;
use vstd::prelude::*;
use vstd::utf8::encode_utf8;

verus! {

/// The headers recorded after a report of `header`, where `used` were
/// recorded before and `watched` are taken in.
pub open spec fn after_read(
    used: Set<HxRequestHeader>,
    watched: Set<HxRequestHeader>,
    header: HxRequestHeader,
) -> Set<HxRequestHeader> {
    if watched.contains(header) {
        used.insert(header)
    } else {
        used
    }
}

/// The record of the tracked headers that were read during one request.
#[derive(Debug, Clone, PartialEq, Eq, Hash)]
pub struct Ledger {
    watched: Catalogue,
    used: Catalogue,
}

impl View for Ledger {
    type V = Set<HxRequestHeader>;

    closed spec fn view(&self) -> Set<HxRequestHeader> {
        self.used@
    }
}

impl Ledger {
    /// The headers that this ledger takes in.
    pub closed spec fn watched(&self) -> Set<HxRequestHeader> {
        self.watched@
    }

    /// A ledger that takes in every header of the catalogue, and in which
    /// none is recorded.
    pub fn new() -> (ledger: Ledger)
        ensures
            ledger@ == Set::<HxRequestHeader>::empty(),
            ledger.watched() == Set::<HxRequestHeader>::full(),
    {
        Ledger { watched: Catalogue::all(), used: Catalogue::none() }
    }

    /// A ledger that takes in the headers of `watched` only, and in which
    /// none is recorded.
    pub fn watching(watched: Catalogue) -> (ledger: Ledger)
        ensures
            ledger@ == Set::<HxRequestHeader>::empty(),
            ledger.watched() == watched@,
    {
        Ledger { watched, used: Catalogue::none() }
    }

    /// Records that `header` was read, if the ledger takes it in. Reading it
    /// again changes nothing.
    pub fn report(&mut self, header: HxRequestHeader)
        ensures
            final(self).watched() == old(self).watched(),
            final(self)@ == after_read(old(self)@, old(self).watched(), header),
    {
        if self.watched.contains(header) {
            self.used.insert(header);
        }
    }

    /// Whether `header` was read.
    pub fn contains(&self, header: HxRequestHeader) -> (used: bool)
        ensures
            used == self@.contains(header),
    {
        self.used.contains(header)
    }

    /// Whether no header was read.
    pub fn is_empty(&self) -> (empty: bool)
        ensures
            empty == (self@ == Set::<HxRequestHeader>::empty()),
    {
        self.used.is_empty()
    }

    /// The headers that were read, each once, in the order of the catalogue.
    pub fn headers(&self) -> (used: Vec<HxRequestHeader>)
        ensures
            used@ == in_catalogue_order(self@),
    {
        self.used.headers()
    }
}

/// The headers that a run of reports leaves in a fresh ledger.
pub open spec fn recorded(reports: Seq<HxRequestHeader>) -> Set<HxRequestHeader> {
    reports.to_set()
}

spec fn prefix_order(used: Set<HxRequestHeader>, n: int) -> Seq<HxRequestHeader> {
    catalogue().take(n).filter(|h: HxRequestHeader| used.contains(h))
}

proof fn lemma_prefix_order(used: Set<HxRequestHeader>, n: int)
    requires
        0 <= n <= catalogue().len(),
    ensures
        forall|h: HxRequestHeader|
            prefix_order(used, n).contains(h) <==> (used.contains(h) && h.position() < n),
        forall|i: int, j: int|
            0 <= i < j < prefix_order(used, n).len() ==> prefix_order(used, n)[i].position()
                < prefix_order(used, n)[j].position(),
    decreases n,
{
    reveal(Seq::filter);
    let pred = |h: HxRequestHeader| used.contains(h);
    let now = prefix_order(used, n);
    if n == 0 {
        assert(catalogue().take(0) =~= Seq::<HxRequestHeader>::empty());
        assert(now =~= Seq::<HxRequestHeader>::empty());
    } else {
        lemma_prefix_order(used, n - 1);
        let before = prefix_order(used, n - 1);
        let last = catalogue()[n - 1];
        assert(catalogue().take(n).drop_last() =~= catalogue().take(n - 1));
        assert(catalogue().take(n).last() == last);
        assert(last.position() == n - 1);
        assert(now == if used.contains(last) {
            before.push(last)
        } else {
            before
        });
        assert forall|h: HxRequestHeader| now.contains(h) <==> (used.contains(h) && h.position()
            < n) by {
            assert(catalogue()[h.position() as int] == h);
            if now.contains(h) {
                let k = choose|k: int| 0 <= k < now.len() && now[k] == h;
                if k < before.len() {
                    assert(before.contains(h));
                }
            }
            if used.contains(h) && h.position() < n {
                if h.position() < n - 1 {
                    assert(before.contains(h));
                    let k = choose|k: int| 0 <= k < before.len() && before[k] == h;
                    assert(now[k] == h);
                } else {
                    assert(h == last);
                    assert(now[now.len() - 1] == h);
                }
            }
        }
        assert forall|i: int, j: int| 0 <= i < j < now.len() implies now[i].position()
            < now[j].position() by {
            if j < before.len() {
                assert(before[i].position() < before[j].position());
            } else {
                assert(before.contains(before[i]));
            }
        }
    }
}

/// The list made of a set of used headers names each of them and no other,
/// none twice, and follows the order of the catalogue.
pub proof fn lemma_order_exact(used: Set<HxRequestHeader>)
    ensures
        forall|h: HxRequestHeader| in_catalogue_order(used).contains(h) <==> used.contains(h),
        in_catalogue_order(used).no_duplicates(),
        forall|i: int, j: int|
            0 <= i < j < in_catalogue_order(used).len() ==> in_catalogue_order(
                used,
            )[i].position() < in_catalogue_order(used)[j].position(),
{
    lemma_prefix_order(used, catalogue().len() as int);
    assert(catalogue().take(catalogue().len() as int) =~= catalogue());
    let order = in_catalogue_order(used);
    assert(order == prefix_order(used, catalogue().len() as int));
    assert forall|i: int, j: int| 0 <= i < j < order.len() implies order[i].position()
        < order[j].position() by {}
    assert forall|i: int, j: int|
        0 <= i < order.len() && 0 <= j < order.len() && i != j implies order[i] != order[j] by {
        if i < j {
            assert(order[i].position() < order[j].position());
        } else {
            assert(order[j].position() < order[i].position());
        }
    }
}

/// A header that was reported once or many times stands in the list once:
/// after `n` reports of `header` alone, with `n` at least 1, the list is
/// that one header.
pub proof fn lemma_repeated_report(header: HxRequestHeader, n: nat)
    requires
        n >= 1,
    ensures
        in_catalogue_order(recorded(Seq::new(n, |i: int| header))) == seq![header],
{
    let reports = Seq::new(n, |i: int| header);
    let used = recorded(reports);
    assert(reports[0] == header);
    assert(used =~= set![header]);
    lemma_order_exact(used);
    let order = in_catalogue_order(used);
    assert(order.contains(header));
    assert forall|i: int| 0 <= i < order.len() implies order[i] == header by {
        assert(order.contains(order[i]));
    }
    if order.len() >= 2 {
        assert(order[0] != order[1]);
    }
    assert(order =~= seq![header]);
}

/// Reporting a header that is already recorded changes nothing.
pub proof fn lemma_report_idempotent(used: Set<HxRequestHeader>, header: HxRequestHeader)
    ensures
        used.insert(header).insert(header) == used.insert(header),
        in_catalogue_order(used.insert(header).insert(header)) == in_catalogue_order(
            used.insert(header),
        ),
{
    assert(used.insert(header).insert(header) =~= used.insert(header));
}

/// Two ledgers do not leak into each other: where two requests report sets
/// of headers that have nothing in common, no header of the one stands in
/// the list of the other.
pub proof fn lemma_isolation(
    first: Seq<HxRequestHeader>,
    second: Seq<HxRequestHeader>,
)
    requires
        recorded(first).disjoint(recorded(second)),
    ensures
        forall|h: HxRequestHeader|
            in_catalogue_order(recorded(first)).contains(h) ==> first.contains(h)
                && !second.contains(h),
        forall|h: HxRequestHeader|
            in_catalogue_order(recorded(second)).contains(h) ==> second.contains(h)
                && !first.contains(h),
{
    lemma_order_exact(recorded(first));
    lemma_order_exact(recorded(second));
    assert forall|h: HxRequestHeader|
        in_catalogue_order(recorded(first)).contains(h) implies first.contains(h)
        && !second.contains(h) by {
        assert(recorded(first).contains(h));
        if second.contains(h) {
            assert(recorded(second).contains(h));
        }
    }
    assert forall|h: HxRequestHeader|
        in_catalogue_order(recorded(second)).contains(h) implies second.contains(h)
        && !first.contains(h) by {
        assert(recorded(second).contains(h));
        if first.contains(h) {
            assert(recorded(first).contains(h));
        }
    }
}

/// The `Vary` entries of a list of headers, one for each.
pub open spec fn vary_values(headers: Seq<HxRequestHeader>) -> Seq<Seq<u8>> {
    headers.map_values(|h: HxRequestHeader| encode_utf8(h.vary_name()))
}

impl Ledger {
    /// Records every header of `reports`, in whatever order and however often
    /// each occurs.
    pub fn report_all(&mut self, reports: &[HxRequestHeader])
        ensures
            final(self).watched() == old(self).watched(),
            final(self)@ == old(self)@.union(recorded(reports@).intersect(old(self).watched())),
    {
        let mut i: usize = 0;
        let ghost watched = self.watched();
        assert(self@ =~= old(self)@.union(recorded(reports@.take(0)).intersect(watched)));
        while i < reports.len()
            invariant
                i <= reports.len(),
                watched == old(self).watched(),
                self.watched() == watched,
                self@ == old(self)@.union(recorded(reports@.take(i as int)).intersect(watched)),
            decreases reports.len() - i,
        {
            let ghost before = self@;
            self.report(reports[i]);
            proof {
                let shorter = reports@.take(i as int);
                let longer = reports@.take(i + 1);
                assert(longer =~= shorter.push(reports@[i as int]));
                assert forall|h: HxRequestHeader|
                    recorded(longer).contains(h) <==> (recorded(shorter).contains(h) || h
                        == reports@[i as int]) by {
                    if recorded(shorter).contains(h) {
                        let k = choose|k: int| 0 <= k < shorter.len() && shorter[k] == h;
                        assert(longer[k] == h);
                    }
                    if h == reports@[i as int] {
                        assert(longer[i as int] == h);
                    }
                }
                assert(self@ =~= old(self)@.union(recorded(longer).intersect(watched)));
            }
            i += 1;
        }
        assert(reports@.take(reports.len() as int) =~= reports@);
    }

    /// The `Vary` entries of the headers that were read, each once, in the
    /// order of the catalogue.
    pub fn vary_entries(&self) -> (entries: Vec<HeaderValue>)
        ensures
            crate::header::views(entries@) == vary_values(in_catalogue_order(self@)),
    {
        let used = self.headers();
        let mut entries: Vec<HeaderValue> = Vec::new();
        let mut i: usize = 0;
        while i < used.len()
            invariant
                i <= used.len(),
                entries@.len() == i,
                forall|j: int|
                    0 <= j < i ==> (#[trigger] entries@[j])@ == encode_utf8(
                        used@[j].vary_name(),
                    ),
            decreases used.len() - i,
        {
            entries.push(used[i].vary_value());
            i += 1;
        }
        assert(crate::header::views(entries@) =~= vary_values(used@));
        entries
    }
}

} // verus!
